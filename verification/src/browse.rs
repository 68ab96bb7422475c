//! What the main window shows: which collection is selected, its header, the
//! search filter over its rows, and names derived from user input.
use vstd::prelude::*;
use crate::library::{opt_view, Playlist, Track};
use crate::path::{file_extension, file_extension_of};
use crate::text::{
    append_decimal_i64, contains_seq, contains_str, decimal, lowercase, lowercase_of, trim,
    trim_spec,
};

verus! {

/// Which collection the main track list is showing.
#[derive(Clone, Copy, PartialEq, Eq, Structural, Debug)]
pub enum Collection {
    All,
    Liked,
    Playlist(i64),
}

/// The collection behind sidebar row `row`: row 0 is Liked Songs, rows 1..
/// are the user playlists in the order of `playlist_ids`.
pub open spec fn view_for_row_spec(row: int, playlist_ids: Seq<i64>) -> Option<Collection> {
    if row == 0 {
        Some(Collection::Liked)
    } else if 1 <= row <= playlist_ids.len() {
        Some(Collection::Playlist(playlist_ids[row - 1]))
    } else {
        None
    }
}

/// The collection behind a selected sidebar row, or `None` for a row that
/// matches no playlist.
pub fn view_for_row(row: i32, playlist_ids: &Vec<i64>) -> (v: Option<Collection>)
    ensures
        v == view_for_row_spec(row as int, playlist_ids@),
{
    if row == 0 {
        Some(Collection::Liked)
    } else if row >= 1 && ((row - 1) as usize) < playlist_ids.len() {
        Some(Collection::Playlist(playlist_ids[(row - 1) as usize]))
    } else {
        None
    }
}

/// The playlist ids in sidebar order, matching sidebar rows 1.. .
pub fn playlist_ids(playlists: &Vec<Playlist>) -> (ids: Vec<i64>)
    ensures
        ids.len() == playlists.len(),
        forall|i: int| 0 <= i < playlists.len() ==> ids[i] == #[trigger] playlists@[i].id,
{
    let mut ids: Vec<i64> = Vec::new();
    let mut i: usize = 0;
    while i < playlists.len()
        invariant
            i <= playlists.len(),
            ids.len() == i,
            forall|k: int| 0 <= k < i ==> ids[k] == #[trigger] playlists@[k].id,
        decreases playlists.len() - i,
    {
        ids.push(playlists[i].id);
        i = i + 1;
    }
    ids
}

/// The collection to show after playlist `deleted` is removed: the whole
/// library if that playlist was shown, otherwise the same collection.
pub fn collection_after_delete(shown: Collection, deleted: i64) -> (next: Collection)
    ensures
        shown == Collection::Playlist(deleted) ==> next == Collection::All,
        shown != Collection::Playlist(deleted) ==> next == shown,
{
    match shown {
        Collection::Playlist(id) if id == deleted => Collection::All,
        _ => shown,
    }
}

/// The index of the first playlist with id `id`.
pub open spec fn first_with_id(ps: Seq<Playlist>, id: i64) -> int {
    choose|i: int| 0 <= i < ps.len() && ps[i].id == id && forall|j: int| 0 <= j < i ==> ps[j].id != id
}

/// Whether some playlist has id `id`.
pub open spec fn has_id(ps: Seq<Playlist>, id: i64) -> bool {
    exists|i: int| 0 <= i < ps.len() && ps[i].id == id
}

/// The header of a collection: its title and its custom cover image.
pub open spec fn header_spec(view: Collection, ps: Seq<Playlist>) -> (Seq<char>, Option<Seq<char>>) {
    match view {
        Collection::All => ("All Songs"@, None),
        Collection::Liked => ("Liked Songs"@, None),
        Collection::Playlist(id) => if has_id(ps, id) {
            (ps[first_with_id(ps, id)].name@, opt_view(ps[first_with_id(ps, id)].image))
        } else {
            ("Playlist"@, None)
        },
    }
}

/// Position of the first playlist with id `id`.
pub fn find_playlist(ps: &Vec<Playlist>, id: i64) -> (r: Option<usize>)
    ensures
        match r {
            Some(i) => i < ps.len() && ps@[i as int].id == id && forall|j: int|
                0 <= j < i ==> ps@[j].id != id,
            None => !has_id(ps@, id),
        },
{
    let mut i: usize = 0;
    while i < ps.len()
        invariant
            i <= ps.len(),
            forall|j: int| 0 <= j < i ==> ps@[j].id != id,
        decreases ps.len() - i,
    {
        if ps[i].id == id {
            return Some(i);
        }
        i = i + 1;
    }
    None
}

/// The header shown above a collection: its title and, for a playlist, its
/// custom cover image; an unknown playlist is titled `Playlist`.
pub fn view_header(view: Collection, playlists: &Vec<Playlist>) -> (h: (String, Option<String>))
    ensures
        (h.0@, opt_view(h.1)) == header_spec(view, playlists@),
{
    match view {
        Collection::All => (String::from_str("All Songs"), None),
        Collection::Liked => (String::from_str("Liked Songs"), None),
        Collection::Playlist(id) => match find_playlist(playlists, id) {
            Some(i) => {
                let p = &playlists[i];
                proof {
                    assert(has_id(playlists@, id));
                    assert(first_with_id(playlists@, id) == i as int);
                }
                let image = match &p.image {
                    Some(s) => Some(s.clone()),
                    None => None,
                };
                (p.name.clone(), image)
            },
            None => (String::from_str("Playlist"), None),
        },
    }
}

/// The icon standing in for a collection without a custom cover: a heart
/// for Liked Songs, a music glyph otherwise.
pub fn placeholder_icon(view: Collection) -> (name: &'static str)
    ensures
        view == Collection::Liked ==> name@ == "emblem-favorite-symbolic"@,
        view != Collection::Liked ==> name@ == "audio-x-generic-symbolic"@,
{
    match view {
        Collection::Liked => "emblem-favorite-symbolic",
        _ => "audio-x-generic-symbolic",
    }
}

/// The glyph on a track's like button: a filled heart when liked.
pub fn heart_glyph(liked: bool) -> (glyph: &'static str)
    ensures
        liked ==> glyph@ == "\u{2665}"@,
        !liked ==> glyph@ == "\u{2661}"@,
{
    if liked {
        "\u{2665}"
    } else {
        "\u{2661}"
    }
}

/// Whether a track stays visible for a search query: an empty query shows
/// everything; otherwise the lowercased query must occur in the lowercased
/// title, artist or album.
pub open spec fn matches_query(t: Track, query: Seq<char>) -> bool {
    let q = lowercase_of(query);
    ||| q.len() == 0
    ||| contains_seq(lowercase_of(t.title@), q)
    ||| contains_seq(lowercase_of(t.artist@), q)
    ||| contains_seq(lowercase_of(t.album@), q)
}

/// The search shows a track exactly when the lowercased query is empty or
/// occurs, at some offset, in the lowercased title, artist or album.
pub proof fn lemma_search_finds_any_offset(t: Track, query: Seq<char>, field: Seq<char>, at: int)
    requires
        field == lowercase_of(t.title@) || field == lowercase_of(t.artist@) || field
            == lowercase_of(t.album@),
        0 <= at,
        at + lowercase_of(query).len() <= field.len(),
        field.subrange(at, at + lowercase_of(query).len()) == lowercase_of(query),
    ensures
        matches_query(t, query),
{
    let q = lowercase_of(query);
    assert(field.subrange(at, at + q.len()) == q);
}

/// A shown track has an empty lowercased query, or the lowercased query
/// occurs at some offset in its lowercased title, artist or album.
pub proof fn lemma_search_shows_only_matches(t: Track, query: Seq<char>)
    requires
        matches_query(t, query),
    ensures
        ({
            let q = lowercase_of(query);
            ||| q.len() == 0
            ||| exists|at: int|
                0 <= at && at + q.len() <= lowercase_of(t.title@).len() && #[trigger] lowercase_of(
                    t.title@,
                ).subrange(at, at + q.len()) == q
            ||| exists|at: int|
                0 <= at && at + q.len() <= lowercase_of(t.artist@).len() && #[trigger] lowercase_of(
                    t.artist@,
                ).subrange(at, at + q.len()) == q
            ||| exists|at: int|
                0 <= at && at + q.len() <= lowercase_of(t.album@).len() && #[trigger] lowercase_of(
                    t.album@,
                ).subrange(at, at + q.len()) == q
        }),
{
}

/// The live search filter over the track rows.
pub fn track_matches(track: &Track, query: &str) -> (shown: bool)
    ensures
        shown == matches_query(*track, query@),
{
    let q = lowercase(query);
    if q.as_str().unicode_len() == 0 {
        return true;
    }
    let title = lowercase(track.title.as_str());
    if contains_str(title.as_str(), q.as_str()) {
        return true;
    }
    let artist = lowercase(track.artist.as_str());
    if contains_str(artist.as_str(), q.as_str()) {
        return true;
    }
    let album = lowercase(track.album.as_str());
    contains_str(album.as_str(), q.as_str())
}

/// The name a new playlist gets from the text typed for it: the text without
/// surrounding whitespace, or nothing when that is empty.
pub fn new_playlist_name(text: &str) -> (name: Option<String>)
    ensures
        match name {
            Some(n) => n@ == trim_spec(text@) && n@.len() > 0,
            None => trim_spec(text@).len() == 0,
        },
{
    let t = trim(text);
    if t.as_str().unicode_len() == 0 {
        None
    } else {
        Some(t)
    }
}

/// The centred square cut from a `width` x `height` image before it is
/// scaled to a cover: its left and top offsets and its side.
pub fn square_crop(width: i32, height: i32) -> (crop: (i32, i32, i32))
    requires
        width > 0,
        height > 0,
    ensures
        crop.2 == (if width < height { width } else { height }),
        crop.0 == (width - crop.2) / 2,
        crop.1 == (height - crop.2) / 2,
        0 <= crop.0,
        crop.0 + crop.2 <= width,
        0 <= crop.1,
        crop.1 + crop.2 <= height,
{
    let side = if width < height { width } else { height };
    ((width - side) / 2, (height - side) / 2, side)
}

/// The file name a playlist cover is stored under: the playlist id, a dot
/// and the extension, so setting a new cover replaces the old one.
pub fn cover_file_name(playlist_id: i64, ext: &str) -> (name: String)
    ensures
        name@ == decimal(playlist_id as int) + "."@ + ext@,
{
    let mut name = String::new();
    append_decimal_i64(&mut name, playlist_id);
    name.append(".");
    name.append(ext);
    name
}

/// The extension kept for a chosen cover image, given the image file's file
/// name: its own extension, or `img` when it has none.
pub fn image_extension(name: Option<&str>) -> (ext: String)
    ensures
        match file_extension_of(
            match name {
                Some(n) => Some(n@),
                None => None,
            },
        ) {
            Some(e) => ext@ == e,
            None => ext@ == "img"@,
        },
{
    match file_extension(name) {
        Some(e) => e,
        None => String::from_str("img"),
    }
}

} // verus!
