//! The queue model: tracks in playback order, the current position and the
//! playback state, each operation stated as a transition of the queue's view.

use vstd::prelude::*;

verus! {

/// Whether the queue is playing, paused or stopped.
#[derive(Debug, Clone, Copy, PartialEq, Eq, Structural)]
pub enum PlaybackState {
    Stopped,
    Playing,
    Paused,
}

/// Why a queue operation was refused; a refused operation changes nothing.
#[derive(Debug, Clone, Copy, PartialEq, Eq, Structural)]
pub enum QueueError {
    /// An index argument is not valid for the current length.
    OutOfBounds,
    /// The operation needs at least one track.
    EmptyQueue,
    /// The operation needs a current track and none is selected.
    NoSelection,
    /// Navigation past the first or the last track.
    AtBoundary,
}

/// The content of a track, without its slot index.
pub struct TrackView {
    pub path: Seq<char>,
    pub title: Option<Seq<char>>,
    pub artist: Option<Seq<char>>,
    pub duration_ms: Option<u64>,
}

/// One audio file with its display metadata and its slot in the queue.
/// The duration is kept in whole milliseconds. Paths need not be unique.
/// `position` is the track's index, set again by every change of the order.
#[derive(Debug, PartialEq, Eq)]
pub struct AudioTrack {
    pub path: String,
    pub title: Option<String>,
    pub artist: Option<String>,
    pub duration_ms: Option<u64>,
    pub position: usize,
}

/// The characters of an optional text.
pub open spec fn text_view(s: Option<String>) -> Option<Seq<char>> {
    match s {
        Some(t) => Some(t@),
        None => None,
    }
}

impl View for AudioTrack {
    type V = TrackView;

    open spec fn view(&self) -> TrackView {
        TrackView {
            path: self.path@,
            title: text_view(self.title),
            artist: text_view(self.artist),
            duration_ms: self.duration_ms,
        }
    }
}

/// A copy of an optional text.
pub fn clone_text(s: &Option<String>) -> (r: Option<String>)
    ensures
        r == *s,
{
    match s {
        Some(t) => Some(t.clone()),
        None => None,
    }
}

impl Clone for AudioTrack {
    fn clone(&self) -> (r: Self)
        ensures
            r == *self,
    {
        AudioTrack {
            path: self.path.clone(),
            title: clone_text(&self.title),
            artist: clone_text(&self.artist),
            duration_ms: self.duration_ms,
            position: self.position,
        }
    }
}

/// The queue as the contracts see it: track contents in playback order, the
/// current position and the playback state.
pub struct QueueView {
    pub tracks: Seq<TrackView>,
    pub current: Option<usize>,
    pub state: PlaybackState,
}

/// What `expect` says of one operation: on `Ok(q)` the call succeeded and
/// left the queue as `q`; on `Err(e)` it failed with `e` and changed nothing.
pub open spec fn outcome(
    before: QueueView,
    after: QueueView,
    r: Result<(), QueueError>,
    expect: Result<QueueView, QueueError>,
) -> bool {
    match expect {
        Ok(q) => r is Ok && after == q,
        Err(e) => r == Err::<(), QueueError>(e) && after == before,
    }
}

impl QueueView {
    /// The current position addresses a track, and a queue that plays or is
    /// paused has a current position.
    pub open spec fn wf(self) -> bool {
        &&& match self.current {
            Some(c) => c < self.tracks.len(),
            None => true,
        }
        &&& self.state != PlaybackState::Stopped ==> self.current is Some
    }

    pub open spec fn empty() -> QueueView {
        QueueView { tracks: Seq::empty(), current: None, state: PlaybackState::Stopped }
    }

    /// Insert at `position`, or append. The current position keeps its value,
    /// so an insertion at or before it makes it address the track before.
    pub open spec fn add(self, t: TrackView, position: Option<usize>) -> Result<QueueView, QueueError> {
        match position {
            Some(p) => if p > self.tracks.len() {
                Err(QueueError::OutOfBounds)
            } else {
                Ok(QueueView { tracks: self.tracks.insert(p as int, t), ..self })
            },
            None => Ok(QueueView { tracks: self.tracks.push(t), ..self }),
        }
    }

    /// Remove the track at `index`; see `current_after_remove` for the current
    /// position. A queue left empty is stopped.
    pub open spec fn remove(self, index: usize) -> Result<QueueView, QueueError> {
        if index >= self.tracks.len() {
            Err(QueueError::OutOfBounds)
        } else {
            let current = current_after_remove(self.current, index, self.tracks.len());
            QueueView::ok_with(
                self.tracks.remove(index as int),
                current,
                if self.current == Some(index) && current is None {
                    PlaybackState::Stopped
                } else {
                    self.state
                },
            )
        }
    }

    /// Take the track at `from` out and put it back at `to`.
    pub open spec fn move_entry(self, from: usize, to: usize) -> Result<QueueView, QueueError> {
        if from >= self.tracks.len() || to >= self.tracks.len() {
            Err(QueueError::OutOfBounds)
        } else if from == to {
            Ok(self)
        } else {
            QueueView::ok_with(
                self.tracks.remove(from as int).insert(to as int, self.tracks[from as int]),
                current_after_move(self.current, from, to),
                self.state,
            )
        }
    }

    /// Start playing, selecting the first track when none is selected.
    pub open spec fn play(self) -> Result<QueueView, QueueError> {
        if self.tracks.len() == 0 {
            Err(QueueError::EmptyQueue)
        } else {
            QueueView::ok_with(
                self.tracks,
                match self.current {
                    Some(c) => Some(c),
                    None => Some(0usize),
                },
                PlaybackState::Playing,
            )
        }
    }

    pub open spec fn pause(self) -> Result<QueueView, QueueError> {
        if self.current is None {
            Err(QueueError::NoSelection)
        } else {
            QueueView::ok_with(self.tracks, self.current, PlaybackState::Paused)
        }
    }

    /// A paused queue plays again; otherwise this is `play`.
    pub open spec fn resume(self) -> Result<QueueView, QueueError> {
        if self.current is None {
            Err(QueueError::NoSelection)
        } else if self.state == PlaybackState::Paused {
            QueueView::ok_with(self.tracks, self.current, PlaybackState::Playing)
        } else {
            self.play()
        }
    }

    /// Select the next track and play; the first one when none is selected.
    pub open spec fn next(self) -> Result<QueueView, QueueError> {
        if self.tracks.len() == 0 {
            Err(QueueError::EmptyQueue)
        } else {
            match self.current {
                None => QueueView::ok_with(self.tracks, Some(0usize), PlaybackState::Playing),
                Some(c) => if c + 1 < self.tracks.len() {
                    QueueView::ok_with(self.tracks, Some((c + 1) as usize), PlaybackState::Playing)
                } else {
                    Err(QueueError::AtBoundary)
                },
            }
        }
    }

    /// Select the previous track and play; the first one when none is selected.
    pub open spec fn previous(self) -> Result<QueueView, QueueError> {
        if self.tracks.len() == 0 {
            Err(QueueError::EmptyQueue)
        } else {
            match self.current {
                None => QueueView::ok_with(self.tracks, Some(0usize), PlaybackState::Playing),
                Some(c) => if c > 0 {
                    QueueView::ok_with(self.tracks, Some((c - 1) as usize), PlaybackState::Playing)
                } else {
                    Err(QueueError::AtBoundary)
                },
            }
        }
    }

    pub open spec fn jump(self, index: usize) -> Result<QueueView, QueueError> {
        if index >= self.tracks.len() {
            Err(QueueError::OutOfBounds)
        } else {
            QueueView::ok_with(self.tracks, Some(index), PlaybackState::Playing)
        }
    }

    pub open spec fn ok_with(
        tracks: Seq<TrackView>,
        current: Option<usize>,
        state: PlaybackState,
    ) -> Result<QueueView, QueueError> {
        Ok(QueueView { tracks, current, state })
    }
}

/// The current position after removing the track at `index` from `len` tracks:
/// a later one moves down by one; the removed one is followed by the track
/// that slid into its slot, or by the new last track, or by none.
pub open spec fn current_after_remove(current: Option<usize>, index: usize, len: nat) -> Option<usize> {
    match current {
        None => None,
        Some(c) => if c == index {
            if len == 1 {
                None
            } else if index == len - 1 {
                Some((len - 2) as usize)
            } else {
                Some(c)
            }
        } else if c > index {
            Some((c - 1) as usize)
        } else {
            Some(c)
        },
    }
}

/// The current position after moving the track at `from` to `to`: the moved
/// track stays current, and one strictly past `from` up to `to` shifts by one
/// toward `from`.
pub open spec fn current_after_move(current: Option<usize>, from: usize, to: usize) -> Option<usize> {
    match current {
        None => None,
        Some(c) => Some(
            if c == from {
                to
            } else if from < c && c <= to {
                (c - 1) as usize
            } else if to <= c && c < from {
                (c + 1) as usize
            } else {
                c
            },
        ),
    }
}

/// An intent for the processor, as the control interface sends it.
#[derive(Debug, Clone)]
pub enum QueueCommand {
    Add(AudioTrack, Option<usize>),
    Remove(usize),
    Move(usize, usize),
    Play,
    Pause,
    Resume,
    Next,
    Previous,
    Jump(usize),
    Clear,
    GetStatus,
}

/// The queue as it stands after one command; see `outcome`.
pub open spec fn command_result(q: QueueView, c: QueueCommand) -> Result<QueueView, QueueError> {
    match c {
        QueueCommand::Add(t, p) => q.add(t@, p),
        QueueCommand::Remove(i) => q.remove(i),
        QueueCommand::Move(from, to) => q.move_entry(from, to),
        QueueCommand::Play => q.play(),
        QueueCommand::Pause => q.pause(),
        QueueCommand::Resume => q.resume(),
        QueueCommand::Next => q.next(),
        QueueCommand::Previous => q.previous(),
        QueueCommand::Jump(i) => q.jump(i),
        QueueCommand::Clear => Ok(QueueView::empty()),
        QueueCommand::GetStatus => Ok(q),
    }
}

/// The queue of tracks with its current position and playback state.
#[derive(Debug)]
pub struct AudioQueue {
    pub tracks: Vec<AudioTrack>,
    pub current_position: Option<usize>,
    pub playback_state: PlaybackState,
}

impl View for AudioQueue {
    type V = QueueView;

    open spec fn view(&self) -> QueueView {
        QueueView {
            tracks: self.tracks@.map_values(|t: AudioTrack| t@),
            current: self.current_position,
            state: self.playback_state,
        }
    }
}

impl AudioQueue {
    /// Every track's `position` is its index, and the view is well formed.
    pub open spec fn wf(&self) -> bool {
        &&& forall|i: int| 0 <= i < self.tracks@.len() ==> #[trigger] self.tracks@[i].position == i
        &&& self@.wf()
    }

    pub fn new() -> (r: Self)
        ensures
            r.wf(),
            r@ == QueueView::empty(),
    {
        let r = AudioQueue { tracks: Vec::new(), current_position: None, playback_state: PlaybackState::Stopped };
        assert(r@.tracks =~= Seq::empty());
        r
    }

    /// Whether the queue is well formed: every track's `position` is its
    /// index, the current position addresses a track, and a queue that plays
    /// or is paused has one.
    pub fn is_consistent(&self) -> (r: bool)
        ensures
            r == self.wf(),
    {
        let n = self.tracks.len();
        let mut i: usize = 0;
        while i < n
            invariant
                n == self.tracks@.len(),
                i <= n,
                forall|j: int| 0 <= j < i ==> #[trigger] self.tracks@[j].position == j,
            decreases n - i,
        {
            if self.tracks[i].position != i {
                return false;
            }
            i += 1;
        }
        match self.current_position {
            Some(c) => c < n,
            None => self.playback_state == PlaybackState::Stopped,
        }
    }

    /// The current track, when the current position addresses one.
    pub open spec fn current_track(&self) -> Option<AudioTrack> {
        match self.current_position {
            Some(c) => if c < self.tracks@.len() {
                Some(self.tracks@[c as int])
            } else {
                None
            },
            None => None,
        }
    }

    pub fn get_queue(&self) -> (r: &Vec<AudioTrack>)
        ensures
            *r == self.tracks,
    {
        &self.tracks
    }

    pub fn get_current_track(&self) -> (r: Option<&AudioTrack>)
        ensures
            match self.current_track() {
                Some(t) => r matches Some(x) && *x == t,
                None => r is None,
            },
    {
        match self.current_position {
            Some(c) => if c < self.tracks.len() {
                Some(&self.tracks[c])
            } else {
                None
            },
            None => None,
        }
    }

    /// The playback state, a copy of the current track and the number of tracks.
    pub fn get_status(&self) -> (r: (PlaybackState, Option<AudioTrack>, usize))
        ensures
            r.0 == self.playback_state,
            r.1 == self.current_track(),
            r.2 == self.tracks@.len(),
    {
        let current = match self.get_current_track() {
            Some(t) => Some(t.clone()),
            None => None,
        };
        (self.playback_state, current, self.tracks.len())
    }

    /// The durable form of the queue: a copy of its tracks, current position
    /// and playback state.
    pub fn to_state(&self) -> (r: AudioQueueState)
        ensures
            r.tracks@ == self.tracks@,
            r.current_position == self.current_position,
            r.playback_state == self.playback_state,
    {
        let mut tracks: Vec<AudioTrack> = Vec::new();
        let mut i: usize = 0;
        while i < self.tracks.len()
            invariant
                i <= self.tracks@.len(),
                tracks@ == self.tracks@.subrange(0, i as int),
            decreases self.tracks@.len() - i,
        {
            tracks.push(self.tracks[i].clone());
            i += 1;
            assert(tracks@ =~= self.tracks@.subrange(0, i as int));
        }
        assert(tracks@ =~= self.tracks@);
        AudioQueueState {
            tracks,
            current_position: self.current_position,
            playback_state: self.playback_state,
        }
    }

    /// Rebuild a queue from its durable form. A state whose current position
    /// addresses no track, or that plays or is paused with none, is malformed
    /// and gives the empty queue.
    pub fn from_state(state: AudioQueueState) -> (r: AudioQueue)
        ensures
            r.wf(),
            r@ == restored(state@),
    {
        let valid = match state.current_position {
            Some(c) => c < state.tracks.len(),
            None => state.playback_state == PlaybackState::Stopped,
        };
        if !valid {
            return AudioQueue::new();
        }
        let mut q = AudioQueue {
            tracks: state.tracks,
            current_position: state.current_position,
            playback_state: state.playback_state,
        };
        q.update_positions();
        q
    }

    /// Set every track's `position` to its index; nothing else changes.
    fn update_positions(&mut self)
        ensures
            final(self).tracks@.len() == old(self).tracks@.len(),
            forall|i: int| 0 <= i < final(self).tracks@.len() ==> #[trigger] final(self).tracks@[i].position == i,
            final(self)@ == old(self)@,
    {
        let n = self.tracks.len();
        let mut i: usize = 0;
        while i < n
            invariant
                n == self.tracks@.len(),
                i <= n,
                forall|j: int| 0 <= j < i ==> #[trigger] self.tracks@[j].position == j,
                forall|j: int| 0 <= j < n ==> #[trigger] self.tracks@[j]@ == old(self).tracks@[j]@,
                self.current_position == old(self).current_position,
                self.playback_state == old(self).playback_state,
                old(self).tracks@.len() == n,
            decreases n - i,
        {
            let ghost before = self.tracks@;
            self.tracks[i].position = i;
            assert(self.tracks@ == before.update(i as int, AudioTrack { position: i, ..before[i as int] }));
            assert(self.tracks@[i as int]@ == before[i as int]@);
            i += 1;
        }
        assert(self@.tracks =~= old(self)@.tracks);
    }

    /// Insert `track` at `position`, or append it when `position` is `None`;
    /// fails with `OutOfBounds` when `position` is past the end.
    pub fn add_track(&mut self, track: AudioTrack, position: Option<usize>) -> (r: Result<(), QueueError>)
        requires
            old(self).wf(),
        ensures
            final(self).wf(),
            outcome(old(self)@, final(self)@, r, old(self)@.add(track@, position)),
    {
        match position {
            Some(p) => {
                if p > self.tracks.len() {
                    return Err(QueueError::OutOfBounds);
                }
                self.tracks.insert(p, track);
                assert(self@.tracks =~= old(self)@.tracks.insert(p as int, track@));
            },
            None => {
                self.tracks.push(track);
                assert(self@.tracks =~= old(self)@.tracks.push(track@));
            },
        }
        self.update_positions();
        Ok(())
    }

    /// Remove the track at `index`; fails with `OutOfBounds` past the end.
    pub fn remove_track(&mut self, index: usize) -> (r: Result<(), QueueError>)
        requires
            old(self).wf(),
        ensures
            final(self).wf(),
            outcome(old(self)@, final(self)@, r, old(self)@.remove(index)),
    {
        let len = self.tracks.len();
        if index >= len {
            return Err(QueueError::OutOfBounds);
        }
        if let Some(c) = self.current_position {
            if c == index {
                if len == 1 {
                    self.current_position = None;
                    self.playback_state = PlaybackState::Stopped;
                } else if index == len - 1 {
                    self.current_position = Some(len - 2);
                }
            } else if c > index {
                self.current_position = Some(c - 1);
            }
        }
        self.tracks.remove(index);
        assert(self@.tracks =~= old(self)@.tracks.remove(index as int));
        self.update_positions();
        Ok(())
    }

    /// Move the track at `from` to `to`; fails with `OutOfBounds` when either
    /// index is past the end, and does nothing when they are equal.
    pub fn move_track(&mut self, from: usize, to: usize) -> (r: Result<(), QueueError>)
        requires
            old(self).wf(),
        ensures
            final(self).wf(),
            outcome(old(self)@, final(self)@, r, old(self)@.move_entry(from, to)),
    {
        if from >= self.tracks.len() || to >= self.tracks.len() {
            return Err(QueueError::OutOfBounds);
        }
        if from == to {
            return Ok(());
        }
        let track = self.tracks.remove(from);
        self.tracks.insert(to, track);
        assert(self@.tracks =~= old(self)@.tracks.remove(from as int).insert(to as int, old(self)@.tracks[from as int]));
        self.update_positions();
        if let Some(c) = self.current_position {
            if c == from {
                self.current_position = Some(to);
            } else if from < c && c <= to {
                self.current_position = Some(c - 1);
            } else if to <= c && c < from {
                self.current_position = Some(c + 1);
            }
        }
        Ok(())
    }

    /// Start playing; fails with `EmptyQueue` when there is no track.
    pub fn play(&mut self) -> (r: Result<(), QueueError>)
        requires
            old(self).wf(),
        ensures
            final(self).wf(),
            final(self).tracks@ == old(self).tracks@,
            outcome(old(self)@, final(self)@, r, old(self)@.play()),
    {
        if self.tracks.len() == 0 {
            return Err(QueueError::EmptyQueue);
        }
        if self.current_position.is_none() {
            self.current_position = Some(0);
        }
        self.playback_state = PlaybackState::Playing;
        Ok(())
    }

    /// Pause; fails with `NoSelection` when no track is current.
    pub fn pause(&mut self) -> (r: Result<(), QueueError>)
        requires
            old(self).wf(),
        ensures
            final(self).wf(),
            final(self).tracks@ == old(self).tracks@,
            outcome(old(self)@, final(self)@, r, old(self)@.pause()),
    {
        if self.current_position.is_none() {
            return Err(QueueError::NoSelection);
        }
        self.playback_state = PlaybackState::Paused;
        Ok(())
    }

    /// Resume a paused queue, or start playing; fails with `NoSelection` when
    /// no track is current.
    pub fn resume(&mut self) -> (r: Result<(), QueueError>)
        requires
            old(self).wf(),
        ensures
            final(self).wf(),
            final(self).tracks@ == old(self).tracks@,
            outcome(old(self)@, final(self)@, r, old(self)@.resume()),
    {
        if self.current_position.is_none() {
            return Err(QueueError::NoSelection);
        }
        if self.playback_state == PlaybackState::Paused {
            self.playback_state = PlaybackState::Playing;
            Ok(())
        } else {
            self.play()
        }
    }

    /// Advance to the next track and play; fails with `EmptyQueue` on an empty
    /// queue and with `AtBoundary` on the last track.
    pub fn next_track(&mut self) -> (r: Result<(), QueueError>)
        requires
            old(self).wf(),
        ensures
            final(self).wf(),
            final(self).tracks@ == old(self).tracks@,
            outcome(old(self)@, final(self)@, r, old(self)@.next()),
    {
        let len = self.tracks.len();
        if len == 0 {
            return Err(QueueError::EmptyQueue);
        }
        match self.current_position {
            None => {
                self.current_position = Some(0);
            },
            Some(c) => {
                if c + 1 < len {
                    self.current_position = Some(c + 1);
                } else {
                    return Err(QueueError::AtBoundary);
                }
            },
        }
        self.playback_state = PlaybackState::Playing;
        Ok(())
    }

    /// Go back to the previous track and play; fails with `EmptyQueue` on an
    /// empty queue and with `AtBoundary` on the first track.
    pub fn previous(&mut self) -> (r: Result<(), QueueError>)
        requires
            old(self).wf(),
        ensures
            final(self).wf(),
            final(self).tracks@ == old(self).tracks@,
            outcome(old(self)@, final(self)@, r, old(self)@.previous()),
    {
        if self.tracks.len() == 0 {
            return Err(QueueError::EmptyQueue);
        }
        match self.current_position {
            None => {
                self.current_position = Some(0);
            },
            Some(c) => {
                if c > 0 {
                    self.current_position = Some(c - 1);
                } else {
                    return Err(QueueError::AtBoundary);
                }
            },
        }
        self.playback_state = PlaybackState::Playing;
        Ok(())
    }

    /// Make the track at `index` current and play; fails with `OutOfBounds`
    /// past the end.
    pub fn jump_to(&mut self, index: usize) -> (r: Result<(), QueueError>)
        requires
            old(self).wf(),
        ensures
            final(self).wf(),
            final(self).tracks@ == old(self).tracks@,
            outcome(old(self)@, final(self)@, r, old(self)@.jump(index)),
    {
        if index >= self.tracks.len() {
            return Err(QueueError::OutOfBounds);
        }
        self.current_position = Some(index);
        self.playback_state = PlaybackState::Playing;
        Ok(())
    }

    /// Empty the queue and stop; always succeeds.
    pub fn clear(&mut self) -> (r: Result<(), QueueError>)
        ensures
            final(self).wf(),
            final(self)@ == QueueView::empty(),
            r is Ok,
    {
        self.tracks.clear();
        self.current_position = None;
        self.playback_state = PlaybackState::Stopped;
        assert(self@.tracks =~= Seq::empty());
        Ok(())
    }
}

impl Default for AudioQueue {
    fn default() -> (r: Self)
        ensures
            r.wf(),
            r@ == QueueView::empty(),
    {
        AudioQueue::new()
    }
}

/// The durable form of a queue: what a snapshot file holds.
#[derive(Debug)]
pub struct AudioQueueState {
    pub tracks: Vec<AudioTrack>,
    pub current_position: Option<usize>,
    pub playback_state: PlaybackState,
}

impl View for AudioQueueState {
    type V = QueueView;

    open spec fn view(&self) -> QueueView {
        QueueView {
            tracks: self.tracks@.map_values(|t: AudioTrack| t@),
            current: self.current_position,
            state: self.playback_state,
        }
    }
}

/// The queue that a stored state gives back: itself when well formed, else
/// the empty queue.
pub open spec fn restored(s: QueueView) -> QueueView {
    if s.wf() {
        s
    } else {
        QueueView::empty()
    }
}

/// Saving a well-formed queue and loading it back gives the same tracks,
/// current position and playback state.
pub proof fn lemma_state_round_trip(q: QueueView)
    requires
        q.wf(),
    ensures
        restored(q) == q,
{
}

/// Moving a track onto its own index succeeds and changes nothing.
pub proof fn lemma_move_onto_itself(q: QueueView, i: usize)
    requires
        i < q.tracks.len(),
    ensures
        q.move_entry(i, i) == Ok::<QueueView, QueueError>(q),
{
}

/// `next` on the last track fails with `AtBoundary`, and `previous` on the
/// first fails the same way; a failed operation leaves the queue as it was.
pub proof fn lemma_navigation_boundaries(q: QueueView)
    requires
        q.wf(),
    ensures
        q.current matches Some(c) && c + 1 == q.tracks.len()
            ==> q.next() == Err::<QueueView, QueueError>(QueueError::AtBoundary),
        q.current == Some(0usize) ==> q.previous() == Err::<QueueView, QueueError>(QueueError::AtBoundary),
{
}

/// The queue after each of `cmds` in turn; a refused command leaves it as it was.
pub open spec fn after_commands(q: QueueView, cmds: Seq<QueueCommand>) -> QueueView
    decreases cmds.len(),
{
    if cmds.len() == 0 {
        q
    } else {
        let prev = after_commands(q, cmds.drop_last());
        match command_result(prev, cmds.last()) {
            Ok(next) => next,
            Err(_) => prev,
        }
    }
}

/// Whether a command can select a track when none is current.
pub open spec fn selects(c: QueueCommand) -> bool {
    match c {
        QueueCommand::Play | QueueCommand::Next | QueueCommand::Previous | QueueCommand::Jump(_) => true,
        _ => false,
    }
}

/// One command keeps a well-formed queue well formed, and a queue with no
/// current track keeps none unless the command selects one.
pub proof fn lemma_command_keeps_wf(q: QueueView, c: QueueCommand)
    requires
        q.wf(),
    ensures
        command_result(q, c) matches Ok(next) ==> next.wf(),
        command_result(q, c) matches Ok(next) ==> (q.current is None && !selects(c) ==> next.current is None),
{
}

/// After any sequence of commands on a well-formed queue, the current position
/// is `None` or addresses a track, and a queue that plays or is paused has a
/// current track. A queue with no current track (the empty queue, say) keeps
/// none until a command selects one.
pub proof fn lemma_commands_keep_wf(q: QueueView, cmds: Seq<QueueCommand>)
    requires
        q.wf(),
    ensures
        after_commands(q, cmds).wf(),
        q.current is None && (forall|i: int| 0 <= i < cmds.len() ==> !selects(#[trigger] cmds[i]))
            ==> after_commands(q, cmds).current is None,
    decreases cmds.len(),
{
    if cmds.len() > 0 {
        let init = cmds.drop_last();
        lemma_commands_keep_wf(q, init);
        if q.current is None && (forall|i: int| 0 <= i < cmds.len() ==> !selects(#[trigger] cmds[i])) {
            assert forall|i: int| 0 <= i < init.len() implies !selects(#[trigger] init[i]) by {
                assert(init[i] == cmds[i]);
            }
            assert(!selects(cmds[cmds.len() - 1]));
        }
        lemma_command_keeps_wf(after_commands(q, init), cmds.last());
    }
}

} // verus!
