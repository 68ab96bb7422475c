//! Choosing which files the scanner reads, the order an album's files are
//! imported in, and how an imported folder becomes a named album.
use vstd::prelude::*;
use crate::path::{file_extension, file_extension_of};
use crate::text::{ascii_lower_eq, ascii_lowercase, lemma_ascii_lowercase_idempotent};

verus! {

broadcast use vstd::seq_lib::group_to_multiset_ensures;

// ---------------------------------------------------------------------------
// Audio files
// ---------------------------------------------------------------------------

/// Extensions handed to the tag reader. The player can decode more, but these
/// cover the common lossy / lossless formats and keep random files out.
pub open spec fn audio_extensions() -> Seq<Seq<char>> {
    seq!["mp3"@, "flac"@, "ogg"@, "opus"@, "m4a"@, "aac"@, "wav"@, "wma"@, "aiff"@]
}

/// How many audio extensions there are.
pub const AUDIO_EXT_COUNT: usize = 9;

/// The audio extension at slot `i`.
pub fn audio_extension(i: usize) -> (e: &'static str)
    requires
        i < AUDIO_EXT_COUNT,
    ensures
        e@ == audio_extensions()[i as int],
{
    if i == 0 {
        "mp3"
    } else if i == 1 {
        "flac"
    } else if i == 2 {
        "ogg"
    } else if i == 3 {
        "opus"
    } else if i == 4 {
        "m4a"
    } else if i == 5 {
        "aac"
    } else if i == 6 {
        "wav"
    } else if i == 7 {
        "wma"
    } else {
        "aiff"
    }
}

/// Whether an extension, compared case-insensitively in ASCII, is an audio one.
pub open spec fn is_audio_extension_spec(ext: Seq<char>) -> bool {
    audio_extensions().contains(ascii_lowercase(ext))
}

/// Whether an extension names an audio format (`MP3` counts as `mp3`).
pub fn is_audio_extension(ext: &str) -> (b: bool)
    ensures
        b == is_audio_extension_spec(ext@),
{
    let mut i: usize = 0;
    while i < AUDIO_EXT_COUNT
        invariant
            i <= AUDIO_EXT_COUNT,
            forall|k: int| 0 <= k < i ==> audio_extensions()[k] != ascii_lowercase(ext@),
        decreases AUDIO_EXT_COUNT - i,
    {
        if ascii_lower_eq(ext, audio_extension(i)) {
            assert(audio_extensions()[i as int] == ascii_lowercase(ext@));
            return true;
        }
        i = i + 1;
    }
    false
}

/// Lowercase letters, digits and other non-capital characters are left as
/// they are by ASCII lowercasing.
proof fn lemma_no_capitals_fixed(s: Seq<char>)
    requires
        forall|i: int| 0 <= i < s.len() ==> !('A' <= #[trigger] s[i] && s[i] <= 'Z'),
    ensures
        ascii_lowercase(s) == s,
{
    assert(ascii_lowercase(s) =~= s);
}

/// The audio formats are exactly mp3, flac, ogg, opus, m4a, aac, wav, wma and
/// aiff: each of them is accepted, and an accepted extension lowercases to
/// one of them.
pub proof fn lemma_audio_formats(ext: Seq<char>)
    ensures
        is_audio_extension_spec("mp3"@),
        is_audio_extension_spec("flac"@),
        is_audio_extension_spec("ogg"@),
        is_audio_extension_spec("opus"@),
        is_audio_extension_spec("m4a"@),
        is_audio_extension_spec("aac"@),
        is_audio_extension_spec("wav"@),
        is_audio_extension_spec("wma"@),
        is_audio_extension_spec("aiff"@),
        is_audio_extension_spec(ext) ==> {
            let l = ascii_lowercase(ext);
            ||| l == "mp3"@
            ||| l == "flac"@
            ||| l == "ogg"@
            ||| l == "opus"@
            ||| l == "m4a"@
            ||| l == "aac"@
            ||| l == "wav"@
            ||| l == "wma"@
            ||| l == "aiff"@
        },
{
    reveal_strlit("mp3");
    reveal_strlit("flac");
    reveal_strlit("ogg");
    reveal_strlit("opus");
    reveal_strlit("m4a");
    reveal_strlit("aac");
    reveal_strlit("wav");
    reveal_strlit("wma");
    reveal_strlit("aiff");
    lemma_no_capitals_fixed("mp3"@);
    lemma_no_capitals_fixed("flac"@);
    lemma_no_capitals_fixed("ogg"@);
    lemma_no_capitals_fixed("opus"@);
    lemma_no_capitals_fixed("m4a"@);
    lemma_no_capitals_fixed("aac"@);
    lemma_no_capitals_fixed("wav"@);
    lemma_no_capitals_fixed("wma"@);
    lemma_no_capitals_fixed("aiff"@);
    let e = audio_extensions();
    assert(e[0] == "mp3"@);
    assert(e[1] == "flac"@);
    assert(e[2] == "ogg"@);
    assert(e[3] == "opus"@);
    assert(e[4] == "m4a"@);
    assert(e[5] == "aac"@);
    assert(e[6] == "wav"@);
    assert(e[7] == "wma"@);
    assert(e[8] == "aiff"@);
    if is_audio_extension_spec(ext) {
        let k = choose|k: int| 0 <= k < e.len() && e[k] == ascii_lowercase(ext);
        assert(0 <= k < 9);
    }
}

/// Recognising an audio extension ignores ASCII case: an extension is
/// accepted exactly when its lowercase form is.
pub proof fn lemma_audio_extension_ignores_case(ext: Seq<char>)
    ensures
        is_audio_extension_spec(ext) == is_audio_extension_spec(ascii_lowercase(ext)),
{
    lemma_ascii_lowercase_idempotent(ext);
}

/// Whether a file whose file name is `name` is an audio file the scanner
/// reads: it has an audio extension.
pub open spec fn is_audio_spec(name: Option<Seq<char>>) -> bool {
    match file_extension_of(name) {
        Some(e) => is_audio_extension_spec(e),
        None => false,
    }
}

/// Whether a file has an audio extension, given its file name (what
/// `Path::file_name` gives for its path; `None` when it has none).
pub fn is_audio(name: Option<&str>) -> (b: bool)
    ensures
        b == is_audio_spec(
            match name {
                Some(n) => Some(n@),
                None => None,
            },
        ),
{
    match file_extension(name) {
        Some(e) => is_audio_extension(e.as_str()),
        None => false,
    }
}

// ---------------------------------------------------------------------------
// File order
// ---------------------------------------------------------------------------

/// Lexicographic order on byte strings, the order paths sort in.
pub open spec fn bytes_le(a: Seq<u8>, b: Seq<u8>) -> bool
    decreases a.len(),
{
    if a.len() == 0 {
        true
    } else if b.len() == 0 {
        false
    } else if a[0] != b[0] {
        a[0] < b[0]
    } else {
        bytes_le(a.drop_first(), b.drop_first())
    }
}

/// Any two byte strings are ordered one way or the other.
pub proof fn lemma_bytes_le_total(a: Seq<u8>, b: Seq<u8>)
    ensures
        bytes_le(a, b) || bytes_le(b, a),
    decreases a.len(),
{
    if a.len() > 0 && b.len() > 0 && a[0] == b[0] {
        lemma_bytes_le_total(a.drop_first(), b.drop_first());
    }
}

/// The order is transitive.
pub proof fn lemma_bytes_le_trans(a: Seq<u8>, b: Seq<u8>, c: Seq<u8>)
    requires
        bytes_le(a, b),
        bytes_le(b, c),
    ensures
        bytes_le(a, c),
    decreases a.len(),
{
    if a.len() > 0 && b.len() > 0 && c.len() > 0 && a[0] == b[0] && b[0] == c[0] {
        lemma_bytes_le_trans(a.drop_first(), b.drop_first(), c.drop_first());
    }
}

/// The order is antisymmetric: byte strings ordered both ways are equal.
pub proof fn lemma_bytes_le_antisym(a: Seq<u8>, b: Seq<u8>)
    requires
        bytes_le(a, b),
        bytes_le(b, a),
    ensures
        a == b,
    decreases a.len(),
{
    if a.len() > 0 && b.len() > 0 {
        lemma_bytes_le_antisym(a.drop_first(), b.drop_first());
        assert(a =~= seq![a[0]] + a.drop_first());
        assert(b =~= seq![b[0]] + b.drop_first());
    }
}

/// The order is reflexive.
pub proof fn lemma_bytes_le_refl(a: Seq<u8>)
    ensures
        bytes_le(a, a),
    decreases a.len(),
{
    if a.len() > 0 {
        lemma_bytes_le_refl(a.drop_first());
    }
}

/// Lexicographic: after a common prefix, whatever bytes it holds, the first
/// differing byte decides; and a proper prefix comes first.
pub proof fn lemma_bytes_le_first_difference(p: Seq<u8>, x: u8, y: u8, r1: Seq<u8>, r2: Seq<u8>)
    requires
        x < y,
    ensures
        bytes_le(p + seq![x] + r1, p + seq![y] + r2),
        !bytes_le(p + seq![y] + r2, p + seq![x] + r1),
        bytes_le(p, p + seq![x] + r1),
        !bytes_le(p + seq![x] + r1, p),
    decreases p.len(),
{
    if p.len() > 0 {
        lemma_bytes_le_first_difference(p.drop_first(), x, y, r1, r2);
        assert((p + seq![x] + r1).drop_first() =~= p.drop_first() + seq![x] + r1);
        assert((p + seq![y] + r2).drop_first() =~= p.drop_first() + seq![y] + r2);
    } else {
        assert((p + seq![x] + r1)[0] == x);
        assert((p + seq![y] + r2)[0] == y);
    }
}

/// Whether `a` sorts at or before `b`.
pub fn bytes_precede(a: &Vec<u8>, b: &Vec<u8>) -> (r: bool)
    ensures
        r == bytes_le(a@, b@),
{
    let mut i: usize = 0;
    assert(a@.skip(0) =~= a@);
    assert(b@.skip(0) =~= b@);
    while i < a.len() && i < b.len() && a[i] == b[i]
        invariant
            i <= a.len(),
            i <= b.len(),
            bytes_le(a@, b@) == bytes_le(a@.skip(i as int), b@.skip(i as int)),
        decreases a.len() - i,
    {
        assert(a@.skip(i as int).drop_first() =~= a@.skip(i + 1));
        assert(b@.skip(i as int).drop_first() =~= b@.skip(i + 1));
        i = i + 1;
    }
    if i == a.len() {
        true
    } else if i == b.len() {
        false
    } else {
        a[i] < b[i]
    }
}

/// Whether a sequence of byte strings is in ascending order.
pub open spec fn sorted_bytes(s: Seq<Vec<u8>>) -> bool {
    forall|i: int, j: int| 0 <= i < j < s.len() ==> bytes_le(#[trigger] s[i]@, #[trigger] s[j]@)
}

/// Sort byte strings ascending, byte by byte, before an album's files are
/// imported. For the paths of entries of one folder (all sharing the
/// folder's prefix) this is the order `PathBuf` sorts them in; for paths in
/// general `PathBuf` compares component by component, which this does not
/// model. The result holds exactly the given entries.
pub fn sort_paths(paths: Vec<Vec<u8>>) -> (sorted: Vec<Vec<u8>>)
    ensures
        sorted@.to_multiset() == paths@.to_multiset(),
        sorted_bytes(sorted@),
{
    let mut sorted: Vec<Vec<u8>> = Vec::new();
    let mut rest = paths;
    let ghost given = rest@;
    // Entries are moved one by one from the back of `rest` into their place in
    // `sorted`; `sorted` always holds exactly the moved entries, in order.
    while rest.len() > 0
        invariant
            rest@ == given.take(rest.len() as int),
            rest.len() <= given.len(),
            sorted@.to_multiset() == given.skip(rest.len() as int).to_multiset(),
            sorted_bytes(sorted@),
        decreases rest.len(),
    {
        let x = rest.pop().unwrap();
        assert(rest@ =~= given.take(rest.len() as int));
        assert(given.skip(rest.len() as int) =~= given.skip(rest.len() + 1).insert(0, x));
        let mut p: usize = 0;
        while p < sorted.len() && bytes_precede(&sorted[p], &x)
            invariant
                p <= sorted.len(),
                forall|k: int| 0 <= k < p ==> bytes_le(#[trigger] sorted@[k]@, x@),
            decreases sorted.len() - p,
        {
            p = p + 1;
        }
        let ghost old_sorted = sorted@;
        proof {
            if p < sorted.len() {
                lemma_bytes_le_total(x@, sorted@[p as int]@);
            }
            assert forall|k: int| p <= k < old_sorted.len() implies bytes_le(
                x@,
                #[trigger] old_sorted[k]@,
            ) by {
                if k > p {
                    lemma_bytes_le_trans(x@, old_sorted[p as int]@, old_sorted[k]@);
                }
            }
        }
        sorted.insert(p, x);
        proof {
            vstd::seq_lib::to_multiset_insert(old_sorted, p as int, x);
            vstd::seq_lib::to_multiset_insert(given.skip(rest.len() + 1), 0, x);
            assert forall|i: int, j: int| 0 <= i < j < sorted@.len() implies bytes_le(
                #[trigger] sorted@[i]@,
                #[trigger] sorted@[j]@,
            ) by {
                if i < p && j > p {
                    lemma_bytes_le_trans(sorted@[i]@, x@, sorted@[j]@);
                }
            }
        }
    }
    assert(given.skip(0) =~= given);
    sorted
}

// ---------------------------------------------------------------------------
// Importing a folder as an album
// ---------------------------------------------------------------------------

/// The album gathered so far while a folder's tracks are imported in order.
pub struct AlbumImport {
    album: String,
    ids: Vec<i64>,
    cover: Option<Vec<u8>>,
}

/// The abstract state of an album import.
pub struct AlbumModel {
    /// The first non-empty album tag seen, or empty.
    pub album: Seq<char>,
    /// Ids of the tracks stored so far, in file order.
    pub ids: Seq<i64>,
    /// The first embedded cover found.
    pub cover: Option<Seq<u8>>,
}

impl View for AlbumImport {
    type V = AlbumModel;

    closed spec fn view(&self) -> AlbumModel {
        AlbumModel {
            album: self.album@,
            ids: self.ids@,
            cover: match self.cover {
                Some(c) => Some(c@),
                None => None,
            },
        }
    }
}

/// One imported track: its album tag, the cover read for it (if one was
/// wanted) and its stored id (if storing and looking it up succeeded).
pub open spec fn album_step(
    m: AlbumModel,
    track_album: Seq<char>,
    cover: Option<Seq<u8>>,
    id: Option<i64>,
) -> AlbumModel {
    AlbumModel {
        album: if m.album.len() == 0 && track_album.len() > 0 {
            track_album
        } else {
            m.album
        },
        ids: match id {
            Some(i) => m.ids.push(i),
            None => m.ids,
        },
        cover: if m.cover is None {
            cover
        } else {
            m.cover
        },
    }
}

/// The album's name: its album tag, else the folder's name, else `Album`.
pub open spec fn album_name(m: AlbumModel, folder: Option<Seq<char>>) -> Seq<char> {
    if m.album.len() > 0 {
        m.album
    } else {
        match folder {
            Some(f) => f,
            None => "Album"@,
        }
    }
}

/// What finishing an import gives: `None` when no track was stored,
/// otherwise the album's name, its ids and its cover.
pub open spec fn album_result(m: AlbumModel, folder: Option<Seq<char>>) -> Option<
    (Seq<char>, Seq<i64>, Option<Seq<u8>>),
> {
    if m.ids.len() == 0 {
        None
    } else {
        Some((album_name(m, folder), m.ids, m.cover))
    }
}

/// The view of an import's result.
pub open spec fn import_view(r: Option<(String, Vec<i64>, Option<Vec<u8>>)>) -> Option<
    (Seq<char>, Seq<i64>, Option<Seq<u8>>),
> {
    match r {
        Some((name, ids, cover)) => Some(
            (
                name@,
                ids@,
                match cover {
                    Some(c) => Some(c@),
                    None => None,
                },
            ),
        ),
        None => None,
    }
}

/// Each track's step keeps the first cover found, whatever the album tags:
/// while no cover is held, a supplied cover becomes the album's; once one is
/// held, it stays. The name is the first non-empty album tag, and a stored
/// track's id is appended.
pub proof fn lemma_album_step_keeps_firsts(
    m: AlbumModel,
    track_album: Seq<char>,
    cover: Option<Seq<u8>>,
    id: Option<i64>,
)
    ensures
        m.cover is None ==> album_step(m, track_album, cover, id).cover == cover,
        m.cover is Some ==> album_step(m, track_album, cover, id).cover == m.cover,
        m.album.len() > 0 ==> album_step(m, track_album, cover, id).album == m.album,
        m.album.len() == 0 && track_album.len() > 0 ==> album_step(m, track_album, cover, id).album
            == track_album,
        m.album.len() == 0 && track_album.len() == 0 ==> album_step(
            m,
            track_album,
            cover,
            id,
        ).album.len() == 0,
        id matches Some(i) ==> album_step(m, track_album, cover, id).ids == m.ids.push(i),
        id is None ==> album_step(m, track_album, cover, id).ids == m.ids,
{
}

impl AlbumImport {
    /// Nothing imported yet.
    pub fn new() -> (a: AlbumImport)
        ensures
            a@ == (AlbumModel { album: Seq::empty(), ids: Seq::empty(), cover: None }),
    {
        AlbumImport { album: String::new(), ids: Vec::new(), cover: None }
    }

    /// Whether the next track's embedded cover should be read: only until
    /// one has been found.
    pub fn wants_cover(&self) -> (b: bool)
        ensures
            b == (self@.cover is None),
    {
        self.cover.is_none()
    }

    /// Record one imported track (see [`album_step`]).
    pub fn add_track(&mut self, track_album: &str, cover: Option<Vec<u8>>, id: Option<i64>)
        ensures
            final(self)@ == album_step(
                old(self)@,
                track_album@,
                match cover {
                    Some(c) => Some(c@),
                    None => None,
                },
                id,
            ),
    {
        if self.album.as_str().unicode_len() == 0 && track_album.unicode_len() > 0 {
            self.album = String::from_str(track_album);
        }
        if self.cover.is_none() {
            self.cover = cover;
        }
        match id {
            Some(i) => self.ids.push(i),
            None => {},
        }
    }

    /// The album as a playlist to create: its name, its track ids in file
    /// order and its cover, or `None` when no track could be stored.
    pub fn finish(self, folder: Option<String>) -> (r: Option<(String, Vec<i64>, Option<Vec<u8>>)>)
        ensures
            import_view(r) == album_result(
                self@,
                match folder {
                    Some(f) => Some(f@),
                    None => None,
                },
            ),
    {
        if self.ids.len() == 0 {
            return None;
        }
        let name = if self.album.as_str().unicode_len() == 0 {
            match folder {
                Some(f) => f,
                None => String::from_str("Album"),
            }
        } else {
            self.album
        };
        Some((name, self.ids, self.cover))
    }
}

} // verus!
