use bangrs::library::{Track, TrackId};
use bangrs::scan::{FakeScanner, FilesystemScanner, Probe, ScanError};
use bangrs::time::Duration;

fn sample(id: u64) -> Track {
    Track {
        id: TrackId(id),
        path: format!("/tmp/{id}.wav"),
        title: "t".into(),
        artist: None,
        album: None,
        duration: Duration::from_secs(1),
        sample_rate: 44100,
        channels: 2,
        replay_gain_mdb: None,
    }
}

fn probe(title: Option<&str>) -> Probe {
    Probe {
        title: title.map(|t| t.to_string()),
        artist: Some("Artist".into()),
        album: None,
        duration: Duration::from_millis(2500),
        sample_rate: Some(48000),
        channels: None,
    }
}

#[test]
fn fake_yields_scripted_items() {
    let fake = FakeScanner { items: vec![Ok(sample(1)), Ok(sample(2))] };
    let out: Vec<_> = fake.results().into_iter().collect();
    assert_eq!(out.len(), 2);
    assert!(out.iter().all(|r| r.is_ok()));
}

#[test]
fn fake_turns_errors_into_unsupported_format() {
    let fake = FakeScanner {
        items: vec![Err(ScanError::UnsupportedFormat("disk full".into())), Ok(sample(3))],
    };
    let out = fake.results();
    match &out[0] {
        Err(ScanError::UnsupportedFormat(text)) => assert_eq!(text, "unsupported format: disk full"),
        other => panic!("unexpected {other:?}"),
    }
    assert_eq!(out[1].as_ref().unwrap(), &sample(3));
}

#[test]
fn audio_extensions_are_accepted_in_any_case() {
    for ext in ["mp3", "MP3", "Flac", "wav", "oGg"] {
        assert!(FilesystemScanner::accepts(Some(ext)), "{ext}");
    }
    for ext in ["txt", "mp4", "", "flac2", "og"] {
        assert!(!FilesystemScanner::accepts(Some(ext)), "{ext}");
    }
    assert!(!FilesystemScanner::accepts(None));
}

#[test]
fn title_falls_back_to_file_stem() {
    let t = FilesystemScanner::track_from_probe("/music/Song Name.flac".into(), probe(None), 4);
    assert_eq!(t.title, "Song Name");
    assert_eq!(t.id, TrackId(4));
    assert_eq!(t.sample_rate, 48000);
    assert_eq!(t.channels, 0);
    assert_eq!(t.artist.as_deref(), Some("Artist"));
    assert_eq!(t.duration, Duration::from_millis(2500));
    let tagged = FilesystemScanner::track_from_probe("/music/x.mp3".into(), probe(Some("Tagged")), 0);
    assert_eq!(tagged.title, "Tagged");
    let root = FilesystemScanner::track_from_probe("/".into(), probe(None), 0);
    assert_eq!(root.title, "");
}

#[test]
fn title_stem_follows_the_final_dot() {
    let stem = |path: &str| FilesystemScanner::track_from_probe(path.into(), probe(None), 0).title;
    assert_eq!(stem("/music/foo.tar.gz"), "foo.tar");
    assert_eq!(stem("/music/.hidden"), ".hidden");
    assert_eq!(stem("/music/.hidden.flac"), ".hidden");
    assert_eq!(stem("/music/plain"), "plain");
    assert_eq!(stem("/music/trailing."), "trailing");
}

#[test]
fn successful_probes_are_numbered_in_order() {
    let results = vec![
        Ok(("/a.mp3".to_string(), probe(Some("a")))),
        Err(ScanError::UnsupportedFormat("x".into())),
        Ok(("/b.mp3".to_string(), probe(Some("b")))),
        Ok(("/c.mp3".to_string(), probe(Some("c")))),
    ];
    let out = FilesystemScanner::number(results);
    assert_eq!(out.len(), 4);
    assert_eq!(out[0].as_ref().unwrap().id, TrackId(0));
    assert!(out[1].is_err());
    assert_eq!(out[2].as_ref().unwrap().id, TrackId(1));
    assert_eq!(out[3].as_ref().unwrap().id, TrackId(2));
    assert_eq!(out[3].as_ref().unwrap().path, "/c.mp3");
}

#[test]
fn scan_error_texts() {
    assert_eq!(ScanError::UnsupportedFormat("aiff".into()).message(), "unsupported format: aiff");
    let source = lofty::error::LoftyError::new(lofty::error::ErrorKind::UnknownFormat);
    let m = ScanError::TagRead { path: "/m/x.mp3".into(), source }.message();
    assert!(m.starts_with("tag read failed for /m/x.mp3: "), "{m}");
    assert!(m.len() > "tag read failed for /m/x.mp3: ".len());
}
