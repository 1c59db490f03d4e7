//! Asset resolution: the naming convention that locates a song's files and
//! the archive that bundles them. A pure path computation; extracting the
//! archive itself is disk work that the engine's runner performs when an
//! `Extract` action asks for it, reporting the outcome back to the engine.

use vstd::prelude::*;
use vstd::string::StringExecFns;

verus! {

/// The path of the main-track file: `{folder}/{title}.wav`.
pub open spec fn track_path_spec(folder: Seq<char>, title: Seq<char>) -> Seq<char> {
    folder + "/"@ + title + ".wav"@
}

/// The path of the click-track file: `{folder}/{title}_click.wav`.
pub open spec fn click_path_spec(folder: Seq<char>, title: Seq<char>) -> Seq<char> {
    folder + "/"@ + title + "_click.wav"@
}

/// The path of the archive bundling both files: `{folder}/{title}.7z`.
pub open spec fn archive_path_spec(folder: Seq<char>, title: Seq<char>) -> Seq<char> {
    folder + "/"@ + title + ".7z"@
}

/// Computes the expected main-track and click-track paths for a song.
/// A pure path computation: it does no I/O and never fails.
pub fn resolve(song_folder: &str, song_title: &str) -> (r: (String, String))
    ensures
        r.0@ == track_path_spec(song_folder@, song_title@),
        r.1@ == click_path_spec(song_folder@, song_title@),
{
    let mut track = String::from_str(song_folder);
    track.append("/");
    track.append(song_title);
    track.append(".wav");

    let mut click = String::from_str(song_folder);
    click.append("/");
    click.append(song_title);
    click.append("_click.wav");

    (track, click)
}

/// Computes the path of the archive that bundles a song's files, for the
/// runner to extract into the song's folder when the files are absent.
pub fn archive_path(song_folder: &str, song_title: &str) -> (r: String)
    ensures
        r@ == archive_path_spec(song_folder@, song_title@),
{
    let mut archive = String::from_str(song_folder);
    archive.append("/");
    archive.append(song_title);
    archive.append(".7z");
    archive
}

} // verus!
