//! The records the music library keeps: tracks, freshly scanned tracks and
//! playlists, and the rules that turn a file's tags and a stored row into them.
use vstd::prelude::*;

verus! {

/// A track as stored in the library.
#[derive(Debug, Clone)]
pub struct Track {
    pub id: i64,
    pub path: String,
    pub title: String,
    pub artist: String,
    pub album: String,
    /// Length in seconds.
    pub duration: i64,
    pub liked: bool,
}

/// A track freshly read from disk, before it has a database id.
#[derive(Debug, Clone)]
pub struct NewTrack {
    pub path: String,
    pub title: String,
    pub artist: String,
    pub album: String,
    pub duration: i64,
}

/// A user playlist plus how many tracks it holds.
#[derive(Debug, Clone)]
pub struct Playlist {
    pub id: i64,
    pub name: String,
    pub count: i64,
    pub image: Option<String>,
}

/// The title a scanned file gets: its non-empty title tag, else its file
/// stem, else `Unknown`.
pub open spec fn scanned_title(tag: Option<Seq<char>>, stem: Option<Seq<char>>) -> Seq<char> {
    match tag {
        Some(t) if t.len() > 0 => t,
        _ => match stem {
            Some(s) => s,
            None => "Unknown"@,
        },
    }
}

/// The artist a scanned file gets: its non-empty artist tag, else
/// `Unknown Artist`.
pub open spec fn scanned_artist(tag: Option<Seq<char>>) -> Seq<char> {
    match tag {
        Some(a) if a.len() > 0 => a,
        _ => "Unknown Artist"@,
    }
}

/// The album a scanned file gets: its album tag (even an empty one), else
/// the empty string.
pub open spec fn scanned_album(tag: Option<Seq<char>>) -> Seq<char> {
    match tag {
        Some(a) => a,
        None => Seq::empty(),
    }
}

/// The view of an optional string.
pub open spec fn opt_view(s: Option<String>) -> Option<Seq<char>> {
    match s {
        Some(v) => Some(v@),
        None => None,
    }
}

impl Track {
    /// Build a track from the columns of a stored row; the `liked` column
    /// holds an integer that is true when non-zero.
    pub fn from_row(
        id: i64,
        path: String,
        title: String,
        artist: String,
        album: String,
        duration: i64,
        liked: i64,
    ) -> (t: Track)
        ensures
            t.id == id,
            t.path@ == path@,
            t.title@ == title@,
            t.artist@ == artist@,
            t.album@ == album@,
            t.duration == duration,
            t.liked == (liked != 0),
    {
        Track { id, path, title, artist, album, duration, liked: liked != 0 }
    }
}

impl NewTrack {
    /// Metadata for a scanned file, falling back to the file name when a tag
    /// is missing so nothing shows up blank. `duration_secs` is the whole
    /// seconds of the file's length; it is stored as a signed integer.
    pub fn from_tags(
        path: String,
        title: Option<String>,
        artist: Option<String>,
        album: Option<String>,
        duration_secs: u64,
        file_stem: Option<String>,
    ) -> (t: NewTrack)
        ensures
            t.path@ == path@,
            t.title@ == scanned_title(opt_view(title), opt_view(file_stem)),
            t.artist@ == scanned_artist(opt_view(artist)),
            t.album@ == scanned_album(opt_view(album)),
            t.duration == duration_secs as i64,
    {
        let title = match title {
            Some(t) if t.as_str().unicode_len() > 0 => t,
            _ => match file_stem {
                Some(s) => s,
                None => String::from_str("Unknown"),
            },
        };
        let artist = match artist {
            Some(a) if a.as_str().unicode_len() > 0 => a,
            _ => String::from_str("Unknown Artist"),
        };
        let album = match album {
            Some(a) => a,
            None => String::new(),
        };
        NewTrack { path, title, artist, album, duration: duration_secs as i64 }
    }
}

} // verus!
