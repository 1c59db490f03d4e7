use edrum_waver::resolver::{archive_path, resolve};
use edrum_waver::song::{SongRecord, SongStub};
use edrum_waver::ui::{next_selection, previous_selection};

#[test]
fn resolve_follows_the_naming_convention() {
    let (track, click) = resolve("/songs/rock1", "Intro");
    assert_eq!(track, "/songs/rock1/Intro.wav");
    assert_eq!(click, "/songs/rock1/Intro_click.wav");
}

#[test]
fn resolve_handles_empty_title() {
    let (track, click) = resolve("/music", "");
    assert_eq!(track, "/music/.wav");
    assert_eq!(click, "/music/_click.wav");
}

#[test]
fn archive_path_follows_the_naming_convention() {
    assert_eq!(archive_path("/songs/rock1", "Intro"), "/songs/rock1/Intro.7z");
}

#[test]
fn from_song_record_copies_every_field() {
    let record = SongRecord {
        file_name: String::from("Intro"),
        title: String::from("Intro (live)"),
        folder: String::from("/songs/rock1"),
    };
    let stub = SongStub::from_song_record(&record);
    assert_eq!(stub.file_name, "Intro");
    assert_eq!(stub.title, "Intro (live)");
    assert_eq!(stub.folder, "/songs/rock1");
}

#[test]
fn selection_moves_wrap_around_the_library() {
    assert_eq!(next_selection(0, 3), 1);
    assert_eq!(next_selection(2, 3), 0);
    assert_eq!(previous_selection(1, 3), 0);
    assert_eq!(previous_selection(0, 3), 2);
}

#[test]
fn song_stub_clone_is_exact() {
    let stub = SongStub {
        file_name: String::from("a"),
        title: String::from("b"),
        folder: String::from("c"),
    };
    let copy = stub.clone();
    assert_eq!(copy, stub);
}
