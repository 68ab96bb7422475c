use raudio::library::{NewTrack, Playlist, Track};

#[test]
fn from_row_reads_liked_flag() {
    let t = Track::from_row(4, "/m/a.mp3".into(), "A".into(), "B".into(), "C".into(), 215, 1);
    assert_eq!(t.id, 4);
    assert_eq!(t.path, "/m/a.mp3");
    assert_eq!(t.title, "A");
    assert_eq!(t.artist, "B");
    assert_eq!(t.album, "C");
    assert_eq!(t.duration, 215);
    assert!(t.liked);
    assert!(!Track::from_row(4, "p".into(), "".into(), "".into(), "".into(), 0, 0).liked);
    assert!(Track::from_row(4, "p".into(), "".into(), "".into(), "".into(), 0, -3).liked);
}

#[test]
fn from_tags_keeps_present_tags() {
    let t = NewTrack::from_tags(
        "/m/x.flac".into(),
        Some("Song".into()),
        Some("Band".into()),
        Some("Record".into()),
        181,
        Some("x".into()),
    );
    assert_eq!(t.path, "/m/x.flac");
    assert_eq!(t.title, "Song");
    assert_eq!(t.artist, "Band");
    assert_eq!(t.album, "Record");
    assert_eq!(t.duration, 181);
}

#[test]
fn from_tags_falls_back_when_tags_are_missing() {
    let t = NewTrack::from_tags("/m/x.flac".into(), Some("".into()), Some("".into()), None, 0, Some("x".into()));
    assert_eq!(t.title, "x");
    assert_eq!(t.artist, "Unknown Artist");
    assert_eq!(t.album, "");
    let u = NewTrack::from_tags("/".into(), None, None, Some("".into()), 9, None);
    assert_eq!(u.title, "Unknown");
    assert_eq!(u.artist, "Unknown Artist");
    assert_eq!(u.album, "");
    assert_eq!(u.duration, 9);
}

#[test]
fn from_tags_converts_huge_durations_like_a_cast() {
    let t = NewTrack::from_tags("p".into(), None, None, None, u64::MAX, None);
    assert_eq!(t.duration, u64::MAX as i64);
}

#[test]
fn playlist_record_holds_its_fields() {
    let p = Playlist { id: 2, name: "Mix".into(), count: 3, image: Some("/c/2.png".into()) };
    let q = p.clone();
    assert_eq!(q.id, 2);
    assert_eq!(q.name, "Mix");
    assert_eq!(q.count, 3);
    assert_eq!(q.image.as_deref(), Some("/c/2.png"));
}
