use raudio::browse::square_crop;
use raudio::browse::{
    collection_after_delete, cover_file_name, find_playlist, heart_glyph, image_extension,
    new_playlist_name, placeholder_icon, playlist_ids, track_matches, view_for_row, view_header,
    Collection,
};
use raudio::library::{Playlist, Track};

fn playlists() -> Vec<Playlist> {
    vec![
        Playlist { id: 3, name: "Road trip".into(), count: 2, image: Some("/c/3.png".into()) },
        Playlist { id: 8, name: "chill".into(), count: 0, image: None },
        Playlist { id: 3, name: "Duplicate id".into(), count: 1, image: None },
    ]
}

fn song(title: &str, artist: &str, album: &str) -> Track {
    Track::from_row(1, "/m/s.mp3".into(), title.into(), artist.into(), album.into(), 100, 0)
}

#[test]
fn sidebar_rows_map_to_collections() {
    let ids = vec![3, 8];
    assert_eq!(view_for_row(0, &ids), Some(Collection::Liked));
    assert_eq!(view_for_row(1, &ids), Some(Collection::Playlist(3)));
    assert_eq!(view_for_row(2, &ids), Some(Collection::Playlist(8)));
    assert_eq!(view_for_row(3, &ids), None);
    assert_eq!(view_for_row(-1, &ids), None);
    assert_eq!(view_for_row(i32::MIN, &ids), None);
    assert_eq!(view_for_row(0, &Vec::new()), Some(Collection::Liked));
}

#[test]
fn playlist_ids_follow_sidebar_order() {
    assert_eq!(playlist_ids(&playlists()), vec![3, 8, 3]);
    assert_eq!(playlist_ids(&Vec::new()), Vec::<i64>::new());
}

#[test]
fn headers_name_the_collection() {
    let ps = playlists();
    assert_eq!(view_header(Collection::All, &ps), ("All Songs".to_string(), None));
    assert_eq!(view_header(Collection::Liked, &ps), ("Liked Songs".to_string(), None));
    assert_eq!(
        view_header(Collection::Playlist(3), &ps),
        ("Road trip".to_string(), Some("/c/3.png".to_string()))
    );
    assert_eq!(view_header(Collection::Playlist(8), &ps), ("chill".to_string(), None));
    assert_eq!(view_header(Collection::Playlist(99), &ps), ("Playlist".to_string(), None));
    assert_eq!(find_playlist(&ps, 3), Some(0));
    assert_eq!(find_playlist(&ps, 99), None);
}

#[test]
fn placeholder_icons() {
    assert_eq!(placeholder_icon(Collection::Liked), "emblem-favorite-symbolic");
    assert_eq!(placeholder_icon(Collection::All), "audio-x-generic-symbolic");
    assert_eq!(placeholder_icon(Collection::Playlist(1)), "audio-x-generic-symbolic");
}

#[test]
fn heart_glyphs() {
    assert_eq!(heart_glyph(true), "\u{2665}");
    assert_eq!(heart_glyph(false), "\u{2661}");
}

#[test]
fn search_is_case_insensitive_over_title_artist_album() {
    let t = song("Come Together", "The Beatles", "Abbey Road");
    assert!(track_matches(&t, ""));
    assert!(track_matches(&t, "together"));
    assert!(track_matches(&t, "BEATLES"));
    assert!(track_matches(&t, "abbey r"));
    assert!(!track_matches(&t, "stones"));
    assert!(!track_matches(&t, "come road"));
    let u = song("\u{c9}T\u{c9}", "", "");
    assert!(track_matches(&u, "\u{e9}t\u{e9}"));
}

#[test]
fn new_playlist_names_are_trimmed() {
    assert_eq!(new_playlist_name("  Road trip \n"), Some("Road trip".to_string()));
    assert_eq!(new_playlist_name("x"), Some("x".to_string()));
    assert_eq!(new_playlist_name("   \t"), None);
    assert_eq!(new_playlist_name(""), None);
    assert_eq!(new_playlist_name("\u{3000}a b\u{3000}"), Some("a b".to_string()));
}

#[test]
fn cover_files_are_named_by_playlist() {
    assert_eq!(cover_file_name(7, "png"), "7.png");
    assert_eq!(cover_file_name(12, "cover"), "12.cover");
    assert_eq!(cover_file_name(-1, "img"), "-1.img");
    assert_eq!(image_extension(Some("cat.JPG")), "JPG");
    assert_eq!(image_extension(Some("cat")), "img");
    assert_eq!(image_extension(Some(".hidden")), "img");
    assert_eq!(image_extension(None), "img");
}

#[test]
fn deleting_the_shown_playlist_returns_home() {
    assert_eq!(collection_after_delete(Collection::Playlist(4), 4), Collection::All);
    assert_eq!(collection_after_delete(Collection::Playlist(4), 5), Collection::Playlist(4));
    assert_eq!(collection_after_delete(Collection::Liked, 4), Collection::Liked);
    assert_eq!(collection_after_delete(Collection::All, 4), Collection::All);
}

#[test]
fn square_crop_centres_the_square() {
    assert_eq!(square_crop(400, 300), (50, 0, 300));
    assert_eq!(square_crop(300, 400), (0, 50, 300));
    assert_eq!(square_crop(5, 5), (0, 0, 5));
    assert_eq!(square_crop(1, 4), (0, 1, 1));
    assert_eq!(square_crop(101, 100), (0, 0, 100));
}
