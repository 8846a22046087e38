//! A guild's queue of tracks and how it repeats.
use vstd::prelude::*;
use std::collections::VecDeque;
use rand::seq::SliceRandom;
use crate::audio::{QueuedTrack, TrackMetadata};
use crate::error::BotError;
use crate::text::str_eq;

verus! {

// ---------------------------------------------------------------------------
// Repeat modes
// ---------------------------------------------------------------------------

/// How the queue repeats when a track ends.
#[derive(Debug, Clone, Copy, PartialEq, Eq, Structural)]
pub enum LoopMode {
    /// Tracks play once.
    Off,
    /// The track that ended plays again.
    Single,
    /// The track that ended goes to the back of the queue.
    Queue,
}

/// The mode after `m` in the order Off, Single, Queue, Off.
pub open spec fn next_mode(m: LoopMode) -> LoopMode {
    match m {
        LoopMode::Off => LoopMode::Single,
        LoopMode::Single => LoopMode::Queue,
        LoopMode::Queue => LoopMode::Off,
    }
}

/// The name a mode is shown by.
pub open spec fn mode_name(m: LoopMode) -> Seq<char> {
    match m {
        LoopMode::Off => "Off"@,
        LoopMode::Single => "Single"@,
        LoopMode::Queue => "Queue"@,
    }
}

impl Default for LoopMode {
    fn default() -> (r: Self)
        ensures
            r == LoopMode::Off,
    {
        LoopMode::Off
    }
}

impl LoopMode {
    /// The next mode: Off, then Single, then Queue, then Off again.
    pub fn cycle(self) -> (r: Self)
        ensures
            r == next_mode(self),
    {
        match self {
            LoopMode::Off => LoopMode::Single,
            LoopMode::Single => LoopMode::Queue,
            LoopMode::Queue => LoopMode::Off,
        }
    }

    /// The name the mode is shown by.
    pub fn display_name(self) -> (r: &'static str)
        ensures
            r@ == mode_name(self),
    {
        match self {
            LoopMode::Off => "Off",
            LoopMode::Single => "Single",
            LoopMode::Queue => "Queue",
        }
    }
}

/// The mode a `/loop` command asks for: `off`, `single` or `queue` by name,
/// and the next mode after `current` for anything else or nothing.
pub open spec fn chosen_mode(choice: Option<Seq<char>>, current: LoopMode) -> LoopMode {
    match choice {
        Some(c) => if c == "off"@ {
            LoopMode::Off
        } else if c == "single"@ {
            LoopMode::Single
        } else if c == "queue"@ {
            LoopMode::Queue
        } else {
            next_mode(current)
        },
        None => next_mode(current),
    }
}

impl LoopMode {
    /// The mode a `/loop` command asks for: `off`, `single` or `queue` by name,
    /// and the next mode after `current` otherwise.
    pub fn from_choice(choice: Option<&str>, current: LoopMode) -> (r: LoopMode)
        ensures
            r == chosen_mode(
                match choice {
                    Some(c) => Some(c@),
                    None => None,
                },
                current,
            ),
    {
        match choice {
            Some(c) => if str_eq(c, "off") {
                LoopMode::Off
            } else if str_eq(c, "single") {
                LoopMode::Single
            } else if str_eq(c, "queue") {
                LoopMode::Queue
            } else {
                current.cycle()
            },
            None => current.cycle(),
        }
    }
}

// ---------------------------------------------------------------------------
// Randomness
// ---------------------------------------------------------------------------

/// `rand`'s generator of the current thread.
#[verifier::external_type_specification]
#[verifier::external_body]
pub struct ExThreadRng(rand::rngs::ThreadRng);

/// The current thread's random generator (`rand::rng`). Nothing is stated of
/// it; `rand` panics here only where the operating system gives no seed.
#[verifier::external_body]
fn thread_rng() -> rand::rngs::ThreadRng {
    rand::rng()
}

/// Puts the items in a random order (`SliceRandom::shuffle`, a Fisher-Yates
/// shuffle made of swaps): the same items come out, in an order that rests on
/// chance and is not stated.
#[verifier::external_body]
fn shuffle_items<T>(v: &mut Vec<T>, rng: &mut rand::rngs::ThreadRng)
    ensures
        final(v)@.len() == old(v)@.len(),
        final(v)@.to_multiset() == old(v)@.to_multiset(),
{
    v.shuffle(rng);
}

// ---------------------------------------------------------------------------
// The queue
// ---------------------------------------------------------------------------

/// A guild's tracks waiting to play, front first, and its repeat mode.
#[derive(Debug)]
pub struct GuildQueue {
    tracks: VecDeque<QueuedTrack>,
    pub loop_mode: LoopMode,
}

impl View for GuildQueue {
    type V = Seq<QueuedTrack>;

    /// The waiting tracks, front first.
    closed spec fn view(&self) -> Seq<QueuedTrack> {
        self.tracks@
    }
}

impl GuildQueue {
    /// The queue's repeat mode (the field `loop_mode`).
    pub closed spec fn mode(&self) -> LoopMode {
        self.loop_mode
    }
}

/// `t` is the finished track coming back into the queue.
pub open spec fn is_requeued(t: QueuedTrack, metadata: TrackMetadata, query: String, requested_by: serenity::model::id::UserId) -> bool {
    t.metadata == metadata && t.query == query && t.requested_by == requested_by
}

/// The queue position of a 1-based track number: 0 is no track.
pub fn queue_index(position: u32) -> (r: Result<usize, BotError>)
    ensures
        position == 0 ==> r == Err::<usize, BotError>(BotError::InvalidIndex(0)),
        position > 0 ==> r == Ok::<usize, BotError>((position - 1) as usize),
{
    if position == 0 {
        Err(BotError::InvalidIndex(0))
    } else {
        Ok((position - 1) as usize)
    }
}

/// Taking the front of `q`: the track that comes out, and what stays.
pub open spec fn take_front(q: Seq<QueuedTrack>) -> (Option<QueuedTrack>, Seq<QueuedTrack>) {
    if q.len() == 0 {
        (None, q)
    } else {
        (Some(q[0]), q.drop_first())
    }
}

/// Removing position `i` of `q`: the track that comes out, and what stays;
/// nothing comes out, and nothing changes, for a position past the end.
pub open spec fn take_at(q: Seq<QueuedTrack>, i: int) -> (Option<QueuedTrack>, Seq<QueuedTrack>) {
    if 0 <= i < q.len() {
        (Some(q[i]), q.remove(i))
    } else {
        (None, q)
    }
}

impl Default for GuildQueue {
    /// An empty queue that does not repeat.
    fn default() -> (r: Self)
        ensures
            r@ == Seq::<QueuedTrack>::empty(),
            r.mode() == LoopMode::Off,
    {
        GuildQueue { tracks: VecDeque::new(), loop_mode: LoopMode::Off }
    }
}

impl GuildQueue {
    /// Adds a track at the back.
    pub fn enqueue(&mut self, track: QueuedTrack)
        ensures
            final(self)@ == old(self)@.push(track),
            final(self).mode() == old(self).mode(),
    {
        self.tracks.push_back(track);
    }

    /// Adds a track at the front, to play next.
    pub fn enqueue_front(&mut self, track: QueuedTrack)
        ensures
            final(self)@ == seq![track] + old(self)@,
            final(self).mode() == old(self).mode(),
    {
        self.tracks.push_front(track);
        assert(self.tracks@ =~= seq![track] + old(self).tracks@);
    }

    /// Takes the track at the front, if any.
    pub fn dequeue(&mut self) -> (r: Option<QueuedTrack>)
        ensures
            (r, final(self)@) == take_front(old(self)@),
            final(self).mode() == old(self).mode(),
    {
        self.tracks.pop_front()
    }

    /// Skips the track at the front, if any, and hands it back.
    pub fn skip(&mut self) -> (r: Option<QueuedTrack>)
        ensures
            (r, final(self)@) == take_front(old(self)@),
            final(self).mode() == old(self).mode(),
    {
        self.tracks.pop_front()
    }

    /// Puts the waiting tracks in a random order: the same tracks stay.
    pub fn shuffle(&mut self)
        ensures
            final(self)@.len() == old(self)@.len(),
            final(self)@.to_multiset() == old(self)@.to_multiset(),
            final(self).mode() == old(self).mode(),
    {
        let mut rng = thread_rng();
        let ghost before = self.tracks@;
        let mut items: Vec<QueuedTrack> = Vec::new();
        while self.tracks.len() > 0
            invariant
                items@ + self.tracks@ == before,
                self.loop_mode == old(self).loop_mode,
            decreases self.tracks@.len(),
        {
            let ghost rest = self.tracks@;
            let t = self.tracks.pop_front().unwrap();
            items.push(t);
            assert(items@ + self.tracks@ =~= before) by {
                assert(rest =~= seq![t] + self.tracks@);
            }
        }
        assert(items@ =~= before);
        shuffle_items(&mut items, &mut rng);
        let ghost mixed = items@;
        for t in it: items
            invariant
                it.seq() == mixed,
                self.tracks@ == mixed.take(it.index() as int),
                self.loop_mode == old(self).loop_mode,
        {
            self.tracks.push_back(t);
        }
        assert(self.tracks@ =~= mixed);
    }

    /// Takes the track at position `index` (0 is the front), if there is one.
    pub fn remove(&mut self, index: usize) -> (r: Option<QueuedTrack>)
        ensures
            (r, final(self)@) == take_at(old(self)@, index as int),
            final(self).mode() == old(self).mode(),
    {
        let r = self.tracks.remove(index);
        proof {
            if index < old(self).tracks@.len() {
                assert(self.tracks@ =~= old(self).tracks@.remove(index as int));
            }
        }
        r
    }

    /// What becomes of a track that finished playing: with `Single` it goes to
    /// the front, to play again; with `Queue` to the back; with `Off` nowhere.
    /// It comes back as a new queued track with the given query and requester.
    pub fn requeue_finished(&mut self, metadata: TrackMetadata, query: String, requested_by: serenity::model::id::UserId)
        ensures
            final(self).mode() == old(self).mode(),
            old(self).mode() == LoopMode::Off ==> final(self)@ == old(self)@,
            old(self).mode() == LoopMode::Single ==> final(self)@.len() == old(self)@.len() + 1
                && final(self)@.drop_first() == old(self)@
                && is_requeued(final(self)@[0], metadata, query, requested_by),
            old(self).mode() == LoopMode::Queue ==> final(self)@.len() == old(self)@.len() + 1
                && final(self)@.drop_last() == old(self)@
                && is_requeued(final(self)@.last(), metadata, query, requested_by),
    {
        match self.loop_mode {
            LoopMode::Single => {
                let t = QueuedTrack::new(metadata, query, requested_by);
                self.enqueue_front(t);
                assert(self@.drop_first() =~= old(self)@);
            },
            LoopMode::Queue => {
                let t = QueuedTrack::new(metadata, query, requested_by);
                self.enqueue(t);
                assert(self@.drop_last() =~= old(self)@);
            },
            LoopMode::Off => {},
        }
    }

    /// Takes the track at `index` (0 is the front), or reports the position
    /// (`index + 1`) as invalid and leaves the queue as it was.
    pub fn remove_at(&mut self, index: usize) -> (r: Result<QueuedTrack, BotError>)
        requires
            index < usize::MAX,
        ensures
            final(self).mode() == old(self).mode(),
            index < old(self)@.len() ==> r == Ok::<QueuedTrack, BotError>(old(self)@[index as int])
                && final(self)@ == old(self)@.remove(index as int),
            index >= old(self)@.len() ==> r == Err::<QueuedTrack, BotError>(BotError::InvalidIndex((index + 1) as usize))
                && final(self)@ == old(self)@,
    {
        match self.remove(index) {
            Some(t) => Ok(t),
            None => Err(BotError::InvalidIndex(index + 1)),
        }
    }

    /// Empties the queue.
    pub fn clear(&mut self)
        ensures
            final(self)@ == Seq::<QueuedTrack>::empty(),
            final(self).mode() == old(self).mode(),
    {
        self.tracks.clear();
    }

    /// The track that plays next, left in the queue.
    pub fn peek_next(&self) -> (r: Option<&QueuedTrack>)
        ensures
            match r {
                Some(t) => take_front(self@).0 == Some(*t),
                None => take_front(self@).0 is None,
            },
    {
        if self.tracks.len() == 0 {
            None
        } else {
            Some(&self.tracks[0])
        }
    }

    /// The waiting tracks, front first.
    pub fn list(&self) -> (r: &VecDeque<QueuedTrack>)
        ensures
            r@ == self@,
    {
        &self.tracks
    }

    /// The number of waiting tracks.
    pub fn len(&self) -> (r: usize)
        ensures
            r == self@.len(),
    {
        self.tracks.len()
    }

    /// Whether no track waits.
    pub fn is_empty(&self) -> (r: bool)
        ensures
            r == (self@.len() == 0),
    {
        self.tracks.len() == 0
    }
}

} // verus!
