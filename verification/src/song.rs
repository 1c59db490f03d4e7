//! The minimal description of a song that the playback engine needs.

use vstd::prelude::*;

verus! {

/// A catalog record for one song, as the library layer stores it.
#[derive(Debug, PartialEq, Eq)]
pub struct SongRecord {
    pub file_name: String,
    pub title: String,
    pub folder: String,
}

/// Identifies a song independent of its on-disk decoding state: the folder
/// that holds its assets, the base file name, and the display title.
#[derive(Debug, PartialEq, Eq)]
pub struct SongStub {
    pub file_name: String,
    pub title: String,
    pub folder: String,
}

impl Clone for SongStub {
    fn clone(&self) -> (r: Self)
        ensures
            r == *self,
    {
        SongStub {
            file_name: self.file_name.clone(),
            title: self.title.clone(),
            folder: self.folder.clone(),
        }
    }
}

impl SongStub {
    /// Builds the stub that the engine works with from a catalog record.
    pub fn from_song_record(song_record: &SongRecord) -> (s: Self)
        ensures
            s.file_name == song_record.file_name,
            s.title == song_record.title,
            s.folder == song_record.folder,
    {
        SongStub {
            file_name: song_record.file_name.clone(),
            title: song_record.title.clone(),
            folder: song_record.folder.clone(),
        }
    }
}

} // verus!
