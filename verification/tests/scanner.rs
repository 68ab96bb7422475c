use raudio::path::{file_extension, name_extension};
use raudio::scanner::{is_audio_extension, sort_paths, AlbumImport};

/// The scanner's test on a path: its file name, as std finds it, checked by
/// the library.
fn is_audio(path: &str) -> bool {
    raudio::scanner::is_audio(std::path::Path::new(path).file_name().map(|n| n.to_str().unwrap()))
}

fn reference_is_audio(path: &str) -> bool {
    const EXTS: &[&str] = &["mp3", "flac", "ogg", "opus", "m4a", "aac", "wav", "wma", "aiff"];
    std::path::Path::new(path)
        .extension()
        .and_then(|e| e.to_str())
        .map(|e| EXTS.contains(&e.to_ascii_lowercase().as_str()))
        .unwrap_or(false)
}

#[test]
fn is_audio_examples() {
    assert!(is_audio("/music/song.mp3"));
    assert!(is_audio("/music/Song.MP3"));
    assert!(is_audio("album/01 - intro.FlAc"));
    assert!(is_audio("x.tar.ogg"));
    assert!(!is_audio("/music/cover.jpg"));
    assert!(!is_audio("/music/.mp3"));
    assert!(!is_audio("/music/noext"));
    assert!(!is_audio("/music.mp3/readme"));
    assert!(!is_audio("/music/song.mp3 "));
    assert!(!is_audio("/music/song.\u{130}mp3"));
}

#[test]
fn is_audio_agrees_with_path_extension_rules() {
    let cases = [
        "a.mp3", "a.MP3", "a.Mp4", "a.m4a", "a.M4A", "a.opus", "a.aiff", "a.aif", "a.wma", "a.wav",
        "a.", ".", "..", "a/..", "a/.", "a/b.ogg/.", "dir/", "dir.flac/", "/", "", "a.aac.bak",
        "\u{e9}.flac", "a.FLAC\u{e9}", "a/.flac", "a/..flac", "a.ogg/..", "song.mp3/",
    ];
    for c in cases {
        assert_eq!(is_audio(c), reference_is_audio(c), "path {c:?}");
    }
}

#[test]
fn audio_extension_is_case_insensitive_in_ascii_only() {
    assert!(is_audio_extension("OGG"));
    assert!(is_audio_extension("wav"));
    assert!(!is_audio_extension("og"));
    assert!(!is_audio_extension(""));
    assert!(!is_audio_extension("mp3 "));
    // A dotless capital I is not ASCII, so it is not folded.
    assert!(!is_audio_extension("A\u{131}FF"));
}

#[test]
fn name_extension_examples() {
    assert_eq!(name_extension("cover.png"), Some("png".to_string()));
    assert_eq!(name_extension("archive.tar.gz"), Some("gz".to_string()));
    assert_eq!(name_extension(".hidden"), None);
    assert_eq!(name_extension("plain"), None);
    assert_eq!(name_extension("trailing."), Some("".to_string()));
    assert_eq!(name_extension(".."), None);
    assert_eq!(file_extension(None), None);
    assert_eq!(file_extension(Some("a.ogg")), Some("ogg".to_string()));
}

#[test]
fn no_file_name_is_not_audio() {
    assert!(!raudio::scanner::is_audio(None));
    assert!(raudio::scanner::is_audio(Some("x.Opus")));
    assert!(!raudio::scanner::is_audio(Some(".mp3")));
}

#[test]
fn sort_paths_orders_bytewise() {
    let input: Vec<Vec<u8>> = ["b.mp3", "a.mp3", "B.mp3", "10.mp3", "2.mp3", "a.mp3", "ab", "a"]
        .iter()
        .map(|s| s.as_bytes().to_vec())
        .collect();
    let mut expected = input.clone();
    expected.sort();
    assert_eq!(sort_paths(input), expected);
    assert_eq!(sort_paths(Vec::new()), Vec::<Vec<u8>>::new());
}

#[test]
fn sort_paths_matches_pathbuf_order_in_one_folder() {
    let names = ["track 10.flac", "track 2.flac", "Track 1.flac", "\u{e9}t\u{e9}.ogg", "z.mp3"];
    let mut paths: Vec<std::path::PathBuf> = names.iter().map(|n| std::path::Path::new("/music/album").join(n)).collect();
    let bytes: Vec<Vec<u8>> = paths.iter().map(|p| p.to_str().unwrap().as_bytes().to_vec()).collect();
    paths.sort();
    let sorted: Vec<String> = sort_paths(bytes).into_iter().map(|b| String::from_utf8(b).unwrap()).collect();
    let expected: Vec<String> = paths.iter().map(|p| p.to_str().unwrap().to_string()).collect();
    assert_eq!(sorted, expected);
}

#[test]
fn album_takes_first_nonempty_tag_and_first_cover() {
    let mut a = AlbumImport::new();
    assert!(a.wants_cover());
    a.add_track("", None, Some(3));
    assert!(a.wants_cover());
    a.add_track("Abbey Road", Some(vec![1, 2, 3]), Some(4));
    assert!(!a.wants_cover());
    a.add_track("Other", Some(vec![9]), None);
    a.add_track("", None, Some(7));
    let (name, ids, cover) = a.finish(Some("folder".to_string())).unwrap();
    assert_eq!(name, "Abbey Road");
    assert_eq!(ids, vec![3, 4, 7]);
    assert_eq!(cover, Some(vec![1, 2, 3]));
}

#[test]
fn album_name_falls_back_to_folder_then_album() {
    let mut a = AlbumImport::new();
    a.add_track("", None, Some(1));
    let (name, _, cover) = a.finish(Some("My Folder".to_string())).unwrap();
    assert_eq!(name, "My Folder");
    assert_eq!(cover, None);

    let mut b = AlbumImport::new();
    b.add_track("", None, Some(1));
    assert_eq!(b.finish(None).unwrap().0, "Album");
}

#[test]
fn album_without_stored_tracks_is_nothing() {
    let mut a = AlbumImport::new();
    a.add_track("Name", Some(vec![1]), None);
    assert!(a.finish(Some("f".to_string())).is_none());
    assert!(AlbumImport::new().finish(None).is_none());
}

const PATH_CASES: &[&str] = &[
    "", "/", "//", ".", "./", "..", "../", "a", "a/", "a//", "a/.", "a/./", "a/..", "a/../.",
    "/a/b", "/a/b/", "/a/b/.", "./a", "././a", "a/./b", "a/.b", "a/.b.c", "a/b.", "a/b..",
    "a/..b", "a/...", "x.tar.gz", "/music/Song.MP3", ".hidden", "/x/.hidden/", "b.ogg/.",
    "dir.flac/", "\u{e9}t\u{e9}.flac", "a/\u{e9}.", "a.b/c", "/.", "/..", "...",
];

#[test]
fn file_extension_agrees_with_std_path() {
    for c in PATH_CASES {
        let p = std::path::Path::new(c);
        let expected = p.extension().map(|n| n.to_str().unwrap().to_string());
        let name = p.file_name().map(|n| n.to_str().unwrap());
        assert_eq!(file_extension(name), expected, "path {c:?}");
    }
}

#[test]
fn name_extension_agrees_with_std_on_names() {
    let names = ["a", "a.b", ".a", ".a.b", "a.", "a..", "..a", "...", "..", ".", "\u{e9}.flac", "x.tar.gz"];
    for n in names {
        let expected = std::path::Path::new(n).extension().map(|e| e.to_str().unwrap().to_string());
        if std::path::Path::new(n).file_name().map(|f| f.to_str().unwrap()) == Some(n) {
            assert_eq!(name_extension(n), expected, "name {n:?}");
        }
    }
}
