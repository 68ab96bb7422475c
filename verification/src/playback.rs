//! The playback queue: which track is loaded, what happens when it ends, and
//! how next / previous / shuffle / repeat move through the queue.
//!
//! Every operation is a step of a state machine over [`PlaybackModel`]; the
//! executable methods of [`Playback`] are proved to follow the spec functions
//! [`start`], [`advance`], [`back`], [`track_end`] and [`select_from`].  The caller
//! performs the returned [`Step`] (loading a file, updating the controls).
use vstd::prelude::*;
use crate::library::Track;

verus! {

/// How playback behaves when a track finishes.
#[derive(Clone, Copy, PartialEq, Eq, Structural, Debug)]
pub enum Repeat {
    Off,
    All,
    One,
}

/// What the caller has to do after a playback operation.
#[derive(Clone, Copy, PartialEq, Eq, Structural, Debug)]
pub enum Step {
    /// Load and start the queue entry at this index.
    Start(usize),
    /// The queue ran out: show the controls as stopped.
    Halt,
    /// Nothing changes on screen.
    Idle,
}

/// The abstract state of the player.
pub struct PlaybackModel {
    /// The tracks being played through, independent of the displayed list.
    pub queue: Seq<Track>,
    /// Index into `queue` of the loaded track.
    pub current: Option<usize>,
    pub is_playing: bool,
    /// Set once the end of the loaded track has been handled.
    pub ended: bool,
    /// Identifies each load: it changes every time an entry is started, so an
    /// end notice tagged with an earlier load is recognised as stale.
    pub load: u64,
    pub shuffle: bool,
    pub repeat: Repeat,
}

impl PlaybackModel {
    /// The loaded entry, if any, lies inside the queue.
    pub open spec fn wf(self) -> bool {
        self.current matches Some(i) ==> i < self.queue.len()
    }

    /// The id of the loaded track.
    pub open spec fn playing_id(self) -> Option<i64> {
        match self.current {
            Some(i) => Some(self.queue[i as int].id),
            None => None,
        }
    }

    /// A shuffled advance draws a random index; otherwise none is needed.
    pub open spec fn advance_uses_pick(self) -> bool {
        self.shuffle && self.queue.len() > 0
    }

    /// An end notice for load `token` draws a random index exactly when it
    /// advances with shuffle on.
    pub open spec fn end_uses_pick(self, token: u64) -> bool {
        token == self.load && !self.ended && self.repeat != Repeat::One && self.advance_uses_pick()
    }
}

/// The player before anything was played.
pub open spec fn initial() -> PlaybackModel {
    PlaybackModel {
        queue: Seq::empty(),
        current: None,
        is_playing: false,
        ended: false,
        load: 0,
        shuffle: false,
        repeat: Repeat::Off,
    }
}

/// The load identity that follows `l` (wrapping after the largest value).
pub open spec fn next_load(l: u64) -> u64 {
    if l == u64::MAX {
        0
    } else {
        (l + 1) as u64
    }
}

/// Load and start queue entry `i`; an index outside the queue changes nothing.
pub open spec fn start(m: PlaybackModel, i: usize) -> (PlaybackModel, Step) {
    if i < m.queue.len() {
        (
            PlaybackModel {
                current: Some(i),
                is_playing: true,
                ended: false,
                load: next_load(m.load),
                ..m
            },
            Step::Start(i),
        )
    } else {
        (m, Step::Idle)
    }
}

/// Advance within the queue. Shuffle plays the drawn index `pick`;
/// repeat-all wraps to the start; otherwise playback stops at the end.
pub open spec fn advance(m: PlaybackModel, pick: usize) -> (PlaybackModel, Step) {
    if m.queue.len() == 0 {
        (m, Step::Idle)
    } else if m.shuffle {
        start(m, pick)
    } else {
        let next: int = match m.current {
            Some(i) => i + 1,
            None => 0,
        };
        if next < m.queue.len() {
            start(m, next as usize)
        } else if m.repeat == Repeat::All {
            start(m, 0)
        } else {
            (PlaybackModel { is_playing: false, ..m }, Step::Halt)
        }
    }
}

/// Go back one entry, or restart the first one.
pub open spec fn back(m: PlaybackModel) -> (PlaybackModel, Step) {
    let prev: usize = match m.current {
        Some(i) if i > 0 => (i - 1) as usize,
        _ => 0,
    };
    start(m, prev)
}

/// The track of load `token` reached its end: ignored if that load is no
/// longer the current one or its end was already handled, replayed under
/// repeat-one, otherwise an advance.
pub open spec fn track_end(m: PlaybackModel, token: u64, pick: usize) -> (PlaybackModel, Step) {
    if token != m.load || m.ended {
        (m, Step::Idle)
    } else {
        let m1 = PlaybackModel { ended: true, ..m };
        if m.repeat == Repeat::One {
            match m.current {
                Some(i) => start(m1, i),
                None => (m1, Step::Idle),
            }
        } else {
            advance(m1, pick)
        }
    }
}

/// Start playing entry `index` of a displayed list: the whole list becomes
/// the queue. An index outside the list changes nothing.
pub open spec fn select_from(m: PlaybackModel, tracks: Seq<Track>, index: usize) -> (PlaybackModel, Step) {
    if index < tracks.len() {
        start(PlaybackModel { queue: tracks, current: None, ..m }, index)
    } else {
        (m, Step::Idle)
    }
}

/// Repeat cycles off, then repeat-all, then repeat-one.
pub open spec fn next_repeat(r: Repeat) -> Repeat {
    match r {
        Repeat::Off => Repeat::All,
        Repeat::All => Repeat::One,
        Repeat::One => Repeat::Off,
    }
}

// ---------------------------------------------------------------------------
// Laws of the player
// ---------------------------------------------------------------------------

/// A second notice of an end that was already handled changes nothing,
/// whether that end started the next entry or started nothing: the first
/// notice either moved to a new load or left the current one marked ended.
pub proof fn lemma_end_is_handled_once(m: PlaybackModel, pick: usize, pick2: usize)
    ensures
        track_end(track_end(m, m.load, pick).0, m.load, pick2) == (
            track_end(m, m.load, pick).0,
            Step::Idle,
        ),
{
}

/// An end notice for a load that is no longer current (another entry has
/// been started since) changes nothing.
pub proof fn lemma_stale_end_ignored(m: PlaybackModel, token: u64, pick: usize)
    requires
        token != m.load,
    ensures
        track_end(m, token, pick) == (m, Step::Idle),
{
}

/// Every start gives the player a new load identity.
pub proof fn lemma_start_changes_load(m: PlaybackModel, i: usize)
    requires
        i < m.queue.len(),
    ensures
        start(m, i).0.load != m.load,
{
}

/// Under repeat-one the end of the loaded track restarts that same track.
pub proof fn lemma_repeat_one_replays(m: PlaybackModel, pick: usize)
    requires
        m.wf(),
        m.repeat == Repeat::One,
        !m.ended,
        m.current is Some,
    ensures
        track_end(m, m.load, pick).1 == Step::Start(m.current->0),
        track_end(m, m.load, pick).0.current == m.current,
        track_end(m, m.load, pick).0.playing_id() == m.playing_id(),
        track_end(m, m.load, pick).0.is_playing,
        !track_end(m, m.load, pick).0.ended,
{
}

/// Cycling the repeat mode three times comes back to where it started.
pub proof fn lemma_repeat_cycle(r: Repeat)
    ensures
        next_repeat(next_repeat(next_repeat(r))) == r,
        next_repeat(r) != r,
{
}

/// The random index only matters when the operation says it uses one.
pub proof fn lemma_pick_unused(m: PlaybackModel, pick: usize, pick2: usize)
    ensures
        !m.advance_uses_pick() ==> advance(m, pick) == advance(m, pick2),
        !m.end_uses_pick(m.load) ==> track_end(m, m.load, pick) == track_end(m, m.load, pick2),
{
}

/// Every entry the player starts lies inside the queue and becomes the
/// loaded, playing entry; no step but choosing a list changes the queue.
pub proof fn lemma_steps_stay_in_queue(m: PlaybackModel, pick: usize, i: usize)
    requires
        m.wf(),
    ensures
        advance(m, pick).0.queue == m.queue,
        back(m).0.queue == m.queue,
        track_end(m, m.load, pick).0.queue == m.queue,
        start(m, i).0.queue == m.queue,
        advance(m, pick).1 matches Step::Start(j) ==> j < m.queue.len()
            && advance(m, pick).0.current == Some(j) && advance(m, pick).0.is_playing,
        back(m).1 matches Step::Start(j) ==> j < m.queue.len() && back(m).0.current == Some(j),
        track_end(m, m.load, pick).1 matches Step::Start(j) ==> j < m.queue.len()
            && track_end(m, m.load, pick).0.current == Some(j),
        advance(m, pick).0.wf(),
        back(m).0.wf(),
        track_end(m, m.load, pick).0.wf(),
{
}

/// Choosing a row of a displayed list makes that list the queue and plays
/// the chosen row's track.
pub proof fn lemma_choose_plays_row(m: PlaybackModel, tracks: Seq<Track>, index: usize)
    requires
        index < tracks.len(),
    ensures
        select_from(m, tracks, index).1 == Step::Start(index),
        select_from(m, tracks, index).0.queue == tracks,
        select_from(m, tracks, index).0.playing_id() == Some(tracks[index as int].id),
        select_from(m, tracks, index).0.is_playing,
        select_from(m, tracks, index).0.wf(),
{
}

/// The end of a track (first notice for the current load) plays on exactly as
/// pressing next would, unless repeat-one replays it: without shuffle the
/// entry after it starts; from the last entry repeat-all wraps to the first
/// and otherwise playback stops on the last entry; with shuffle the drawn
/// entry starts. Every case leaves the queue as it was.
pub proof fn lemma_end_plays_on(m: PlaybackModel, pick: usize, i: usize)
    requires
        m.wf(),
        !m.ended,
        m.repeat != Repeat::One,
        m.current == Some(i),
    ensures
        !m.shuffle && i + 1 < m.queue.len() ==> track_end(m, m.load, pick).1 == Step::Start(
            (i + 1) as usize,
        ) && track_end(m, m.load, pick).0.current == Some((i + 1) as usize) && track_end(
            m,
            m.load,
            pick,
        ).0.is_playing,
        !m.shuffle && i + 1 == m.queue.len() && m.repeat == Repeat::All ==> track_end(
            m,
            m.load,
            pick,
        ).1 == Step::Start(0) && track_end(m, m.load, pick).0.current == Some(0usize) && track_end(
            m,
            m.load,
            pick,
        ).0.is_playing,
        !m.shuffle && i + 1 == m.queue.len() && m.repeat == Repeat::Off ==> track_end(
            m,
            m.load,
            pick,
        ).1 == Step::Halt && track_end(m, m.load, pick).0.current == Some(i) && !track_end(
            m,
            m.load,
            pick,
        ).0.is_playing,
        m.shuffle && pick < m.queue.len() ==> track_end(m, m.load, pick).1 == Step::Start(pick)
            && track_end(m, m.load, pick).0.current == Some(pick),
        track_end(m, m.load, pick).0.queue == m.queue,
        track_end(m, m.load, pick).0.repeat == m.repeat,
        track_end(m, m.load, pick).0.shuffle == m.shuffle,
{
}

/// Without shuffle, advancing from the last entry wraps to the first under
/// repeat-all and stops (keeping the last entry loaded) otherwise.
pub proof fn lemma_last_entry(m: PlaybackModel, pick: usize, i: usize)
    requires
        m.wf(),
        !m.shuffle,
        m.current == Some(i),
        i + 1 == m.queue.len(),
    ensures
        m.repeat == Repeat::All ==> advance(m, pick).1 == Step::Start(0),
        m.repeat != Repeat::All ==> advance(m, pick).1 == Step::Halt
            && advance(m, pick).0.current == m.current && !advance(m, pick).0.is_playing,
{
}

/// Without shuffle, advancing from any entry before the last plays the one
/// right after it, and going back from any entry after the first plays the
/// one right before it.
pub proof fn lemma_neighbours(m: PlaybackModel, pick: usize, i: usize)
    requires
        m.wf(),
        m.current == Some(i),
    ensures
        !m.shuffle && i + 1 < m.queue.len() ==> advance(m, pick).1 == Step::Start((i + 1) as usize),
        i > 0 ==> back(m).1 == Step::Start((i - 1) as usize),
        i == 0 ==> back(m).1 == Step::Start(0),
{
}

/// Going back and then forward (without shuffle) returns to the entry that
/// was loaded, unless it was the first.
pub proof fn lemma_back_then_advance(m: PlaybackModel, pick: usize, i: usize)
    requires
        m.wf(),
        !m.shuffle,
        m.current == Some(i),
        i > 0,
    ensures
        advance(back(m).0, pick).1 == Step::Start(i),
        advance(back(m).0, pick).0.current == m.current,
{
}

/// The playback queue and its controls.
pub struct Playback {
    queue: Vec<Track>,
    current: Option<usize>,
    is_playing: bool,
    ended: bool,
    load: u64,
    shuffle: bool,
    repeat: Repeat,
}

impl View for Playback {
    type V = PlaybackModel;

    closed spec fn view(&self) -> PlaybackModel {
        PlaybackModel {
            queue: self.queue@,
            current: self.current,
            is_playing: self.is_playing,
            ended: self.ended,
            load: self.load,
            shuffle: self.shuffle,
            repeat: self.repeat,
        }
    }
}

impl Playback {
    #[verifier::type_invariant]
    spec fn inv(self) -> bool {
        self.current matches Some(i) ==> i < self.queue.len()
    }

    /// An idle player with an empty queue.
    pub fn new() -> (p: Playback)
        ensures
            p@ == initial(),
            p@.wf(),
    {
        Playback {
            queue: Vec::new(),
            current: None,
            is_playing: false,
            ended: false,
            load: 0,
            shuffle: false,
            repeat: Repeat::Off,
        }
    }

    /// The identity of the current load, to tag end notices with.
    pub fn load(&self) -> (l: u64)
        ensures
            l == self@.load,
    {
        self.load
    }

    /// The tracks being played through.
    pub fn queue(&self) -> (q: &Vec<Track>)
        ensures
            q@ == self@.queue,
    {
        &self.queue
    }

    /// Index into the queue of the loaded track.
    pub fn current(&self) -> (c: Option<usize>)
        ensures
            c == self@.current,
    {
        self.current
    }

    /// Id of the loaded track, for highlighting it in any view.
    pub fn playing_id(&self) -> (id: Option<i64>)
        ensures
            id == self@.playing_id(),
    {
        proof {
            use_type_invariant(self);
        }
        match self.current {
            Some(i) => Some(self.queue[i].id),
            None => None,
        }
    }

    pub fn is_playing(&self) -> (b: bool)
        ensures
            b == self@.is_playing,
    {
        self.is_playing
    }

    pub fn shuffle(&self) -> (b: bool)
        ensures
            b == self@.shuffle,
    {
        self.shuffle
    }

    pub fn repeat(&self) -> (r: Repeat)
        ensures
            r == self@.repeat,
    {
        self.repeat
    }

    /// Whether [`Playback::play_next`] will use its random index.
    pub fn next_needs_pick(&self) -> (b: bool)
        ensures
            b == self@.advance_uses_pick(),
    {
        self.shuffle && self.queue.len() > 0
    }

    /// Whether [`Playback::on_track_end`] will use its random index.
    pub fn end_needs_pick(&self, token: u64) -> (b: bool)
        ensures
            b == self@.end_uses_pick(token),
    {
        let one = match self.repeat {
            Repeat::One => true,
            _ => false,
        };
        token == self.load && !self.ended && !one && self.shuffle && self.queue.len() > 0
    }

    /// Load and start the track at `index` in the playback queue.
    pub fn play_queue_index(&mut self, index: usize) -> (step: Step)
        ensures
            (final(self)@, step) == start(old(self)@, index),
            final(self)@.wf(),
    {
        proof {
            use_type_invariant(&*self);
        }
        if index < self.queue.len() {
            self.current = Some(index);
            self.is_playing = true;
            self.ended = false;
            self.load = if self.load == u64::MAX {
                0
            } else {
                self.load + 1
            };
            Step::Start(index)
        } else {
            Step::Idle
        }
    }

    /// Start playing from a displayed list: the whole list becomes the
    /// playback queue, so next / previous keep following it even when another
    /// list is shown later.
    pub fn play_index(&mut self, tracks: Vec<Track>, display_index: usize) -> (step: Step)
        ensures
            (final(self)@, step) == select_from(old(self)@, tracks@, display_index),
            final(self)@.wf(),
    {
        proof {
            use_type_invariant(&*self);
        }
        if display_index >= tracks.len() {
            return Step::Idle;
        }
        self.current = None;
        self.queue = tracks;
        self.play_queue_index(display_index)
    }

    /// Advance within the playback queue. With shuffle on, `pick` is the
    /// randomly drawn index (only used when [`Playback::next_needs_pick`]).
    pub fn play_next(&mut self, pick: usize) -> (step: Step)
        ensures
            (final(self)@, step) == advance(old(self)@, pick),
            final(self)@.wf(),
    {
        proof {
            use_type_invariant(&*self);
        }
        let len = self.queue.len();
        if len == 0 {
            return Step::Idle;
        }
        if self.shuffle {
            return self.play_queue_index(pick);
        }
        let next: usize = match self.current {
            Some(i) => i + 1,
            None => 0,
        };
        if next < len {
            self.play_queue_index(next)
        } else {
            match self.repeat {
                Repeat::All => self.play_queue_index(0),
                _ => {
                    self.is_playing = false;
                    Step::Halt
                },
            }
        }
    }

    /// Go back one track in the queue (or restart it from the top).
    pub fn play_prev(&mut self) -> (step: Step)
        ensures
            (final(self)@, step) == back(old(self)@),
            final(self)@.wf(),
    {
        proof {
            use_type_invariant(&*self);
        }
        let prev: usize = match self.current {
            Some(i) if i > 0 => i - 1,
            _ => 0,
        };
        self.play_queue_index(prev)
    }

    /// The track of load `token` (see [`Playback::load`]) reached its end.
    /// Honours repeat-one before advancing, and ignores a notice whose load is
    /// no longer current or whose end was already handled, so the stream's end
    /// message and the position fallback cannot both act on one end. `pick` is
    /// the randomly drawn index (only used when [`Playback::end_needs_pick`]).
    pub fn on_track_end(&mut self, token: u64, pick: usize) -> (step: Step)
        ensures
            (final(self)@, step) == track_end(old(self)@, token, pick),
            final(self)@.wf(),
    {
        proof {
            use_type_invariant(&*self);
        }
        if token != self.load || self.ended {
            return Step::Idle;
        }
        self.ended = true;
        match self.repeat {
            Repeat::One => match self.current {
                Some(i) => self.play_queue_index(i),
                None => Step::Idle,
            },
            _ => self.play_next(pick),
        }
    }

    /// Play / pause: flips the playing flag and returns its new value.
    pub fn toggle_playing(&mut self) -> (now: bool)
        ensures
            now == !old(self)@.is_playing,
            final(self)@ == (PlaybackModel { is_playing: now, ..old(self)@ }),
    {
        proof {
            use_type_invariant(&*self);
        }
        self.is_playing = !self.is_playing;
        self.is_playing
    }

    /// Turns random advance on or off and returns the new setting.
    pub fn toggle_shuffle(&mut self) -> (now: bool)
        ensures
            now == !old(self)@.shuffle,
            final(self)@ == (PlaybackModel { shuffle: now, ..old(self)@ }),
    {
        proof {
            use_type_invariant(&*self);
        }
        self.shuffle = !self.shuffle;
        self.shuffle
    }

    /// Moves repeat to its next mode (off, all, one, off, ...) and returns it.
    pub fn cycle_repeat(&mut self) -> (mode: Repeat)
        ensures
            mode == next_repeat(old(self)@.repeat),
            final(self)@ == (PlaybackModel { repeat: mode, ..old(self)@ }),
    {
        proof {
            use_type_invariant(&*self);
        }
        let mode = match self.repeat {
            Repeat::Off => Repeat::All,
            Repeat::All => Repeat::One,
            Repeat::One => Repeat::Off,
        };
        self.repeat = mode;
        mode
    }
}

/// The repeat button's icon and whether it is shown as active.
pub fn repeat_button(mode: Repeat) -> (look: (&'static str, bool))
    ensures
        look.1 == (mode != Repeat::Off),
        mode == Repeat::One ==> look.0@ == "media-playlist-repeat-song-symbolic"@,
        mode != Repeat::One ==> look.0@ == "media-playlist-repeat-symbolic"@,
{
    match mode {
        Repeat::Off => ("media-playlist-repeat-symbolic", false),
        Repeat::All => ("media-playlist-repeat-symbolic", true),
        Repeat::One => ("media-playlist-repeat-song-symbolic", true),
    }
}

/// The play button's icon: pause while playing, play otherwise.
pub fn play_button_icon(playing: bool) -> (icon: &'static str)
    ensures
        playing ==> icon@ == "media-playback-pause-symbolic"@,
        !playing ==> icon@ == "media-playback-start-symbolic"@,
{
    if playing {
        "media-playback-pause-symbolic"
    } else {
        "media-playback-start-symbolic"
    }
}

/// For each displayed track, whether it is the one playing.
pub fn highlights(tracks: &Vec<Track>, playing: Option<i64>) -> (marks: Vec<bool>)
    ensures
        marks.len() == tracks.len(),
        forall|i: int| 0 <= i < tracks.len() ==> marks[i] == (playing == Some(#[trigger] tracks[i].id)),
{
    let mut marks: Vec<bool> = Vec::new();
    let mut i: usize = 0;
    while i < tracks.len()
        invariant
            i <= tracks.len(),
            marks.len() == i,
            forall|j: int| 0 <= j < i ==> marks[j] == (playing == Some(#[trigger] tracks[j].id)),
        decreases tracks.len() - i,
    {
        let hit = match playing {
            Some(id) => tracks[i].id == id,
            None => false,
        };
        marks.push(hit);
        i = i + 1;
    }
    marks
}

} // verus!
