use bangrs::library::{Library, Track, TrackId, TrackRow};
use bangrs::time::Duration;

fn sample_track(id: u64, title: &str) -> Track {
    Track {
        id: TrackId(id),
        path: format!("/tmp/{id}.wav"),
        title: title.into(),
        artist: Some("TestArtist".into()),
        album: Some("TestAlbum".into()),
        duration: Duration::from_secs(1),
        sample_rate: 44100,
        channels: 2,
        replay_gain_mdb: None,
    }
}

#[test]
fn new_library_indexes_tracks_by_id() {
    let lib = Library::new(vec![sample_track(1, "a"), sample_track(2, "b")]);
    assert_eq!(lib.len(), 2);
    assert_eq!(lib.get(TrackId(1)).map(|t| t.title.as_str()), Some("a"));
    assert_eq!(lib.get(TrackId(2)).map(|t| t.title.as_str()), Some("b"));
}

#[test]
fn get_returns_none_for_unknown_id() {
    let lib = Library::new(vec![sample_track(1, "a")]);
    assert_eq!(lib.get(TrackId(9999)), None);
}

#[test]
fn empty_library_is_empty() {
    let lib = Library::new(vec![]);
    assert!(lib.is_empty());
    assert_eq!(lib.len(), 0);
}

#[test]
fn duplicate_ids_resolve_to_the_last_track() {
    let lib = Library::new(vec![sample_track(7, "first"), sample_track(8, "other"), sample_track(7, "second")]);
    assert_eq!(lib.get(TrackId(7)).map(|t| t.title.as_str()), Some("second"));
    assert_eq!(lib.len(), 3);
}

#[test]
fn iteration_and_ids_follow_library_order() {
    let lib = Library::new(vec![sample_track(3, "c"), sample_track(1, "a"), sample_track(2, "b")]);
    let titles: Vec<&str> = lib.iter().map(|t| t.title.as_str()).collect();
    assert_eq!(titles, vec!["c", "a", "b"]);
    assert_eq!(lib.track_ids(), vec![TrackId(3), TrackId(1), TrackId(2)]);
    assert_eq!(lib.as_slice().len(), 3);
}

#[test]
fn row_fills_missing_artist_and_album_with_empty_text() {
    let mut t = sample_track(4, "d");
    t.artist = None;
    t.duration = Duration::new(2, 345_678_901);
    let row = TrackRow::from_track(&t);
    assert_eq!(
        row,
        TrackRow {
            id: TrackId(4),
            title: "d".into(),
            artist: String::new(),
            album: "TestAlbum".into(),
            duration_ms: 2345,
        }
    );
}

#[test]
fn duplicate_copies_every_field() {
    let t = sample_track(5, "e");
    assert_eq!(t.duplicate(), t);
}
