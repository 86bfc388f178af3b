//! The track queue of one guild: first in, first out, its head the track
//! that plays.

use vstd::prelude::*;
use crate::ids::TrackTicket;
use crate::track::{QueuedTrack, QueuedTrackView, TrackEntry, TrackEntryView};

verus! {

/// The mathematical value of a [`TrackQueue`]: the tracks in playing order
/// and the ticket that the next track will get.
pub ghost struct QueueView {
    pub tracks: Seq<QueuedTrackView>,
    pub next_ticket: u64,
}

impl QueueView {
    /// A queue that never held a track.
    pub open spec fn empty() -> QueueView {
        QueueView { tracks: Seq::empty(), next_ticket: 0 }
    }

    /// An empty queue whose first track will get the ticket `first_ticket`.
    pub open spec fn starting_at(first_ticket: u64) -> QueueView {
        QueueView { tracks: Seq::empty(), next_ticket: first_ticket }
    }

    /// Tickets grow along the queue and lie below the next one to be given,
    /// and the length is one that a machine can hold.
    pub open spec fn wf(self) -> bool {
        &&& self.tracks.len() <= usize::MAX
        &&& forall|i: int| 0 <= i < self.tracks.len() ==> (#[trigger] self.tracks[i]).ticket.0 < self.next_ticket
        &&& forall|i: int, j: int|
            0 <= i < j < self.tracks.len() ==> (#[trigger] self.tracks[i]).ticket.0 < (#[trigger] self.tracks[j]).ticket.0
    }

    /// A track plays exactly when the queue holds one: its head.
    pub open spec fn is_playing(self) -> bool {
        self.tracks.len() > 0
    }

    /// Whether another track can be taken: a ticket is left, and so is a place.
    pub open spec fn has_room(self) -> bool {
        self.next_ticket < u64::MAX && self.tracks.len() < usize::MAX
    }

    /// The queue after `entry` was appended under the next ticket.
    pub open spec fn enqueued(self, entry: TrackEntryView) -> QueueView {
        QueueView {
            tracks: self.tracks.push(
                QueuedTrackView { ticket: TrackTicket(self.next_ticket), entry },
            ),
            next_ticket: (self.next_ticket + 1) as u64,
        }
    }

    /// The queue after its head, if any, was taken off.
    pub open spec fn skipped(self) -> QueueView {
        if self.tracks.len() > 0 {
            QueueView { tracks: self.tracks.drop_first(), next_ticket: self.next_ticket }
        } else {
            self
        }
    }

    /// The queue after every track was taken off.
    pub open spec fn stopped(self) -> QueueView {
        QueueView { tracks: Seq::empty(), next_ticket: self.next_ticket }
    }

    /// Whether `ticket` is that of the playing track.
    pub open spec fn head_is(self, ticket: TrackTicket) -> bool {
        self.tracks.len() > 0 && self.tracks[0].ticket == ticket
    }

    /// The queue after the track under `ticket` ended: the head leaves if the
    /// ticket is the head's, and nothing changes otherwise.
    pub open spec fn track_ended(self, ticket: TrackTicket) -> QueueView {
        if self.head_is(ticket) {
            self.skipped()
        } else {
            self
        }
    }
}

/// What an enqueue did.
#[derive(Clone, Copy, Debug, PartialEq, Eq, Structural)]
pub struct Enqueued {
    /// Place of the new track in the queue, counted from 1; 1 is the track that plays.
    pub position: usize,
    /// The ticket given to the new track.
    pub ticket: TrackTicket,
    /// Whether nothing played before, so that the new track is to be played at once.
    pub start_playback: bool,
}

/// What a skip did.
#[derive(Clone, Copy, Debug, PartialEq, Eq, Structural)]
pub enum SkipOutcome {
    /// Nothing played; nothing changed.
    NothingToSkip,
    /// The only track was taken off; the queue is empty and playback stops.
    Stopped { skipped: TrackTicket },
    /// The head was taken off and the track behind it plays now.
    Advanced { skipped: TrackTicket, now_playing: TrackTicket },
}

/// What a stop did.
#[derive(Clone, Copy, Debug, PartialEq, Eq, Structural)]
pub enum StopOutcome {
    /// The queue was empty already.
    NothingToStop,
    /// The track that played is to be stopped; `cleared` tracks were taken off.
    Stopped { was_playing: TrackTicket, cleared: usize },
}

/// What the end of a track led to.
#[derive(Clone, Copy, Debug, PartialEq, Eq, Structural)]
pub enum TrackEndOutcome {
    /// The ticket was not that of the playing track; nothing changed.
    Ignored,
    /// The last track ended; the queue is empty.
    Idle,
    /// The head ended and the track behind it plays now.
    Advanced { now_playing: TrackTicket },
}

/// The track queue of one guild.
#[derive(Debug)]
pub struct TrackQueue {
    tracks: Vec<QueuedTrack>,
    next_ticket: u64,
}

impl View for TrackQueue {
    type V = QueueView;

    closed spec fn view(&self) -> QueueView {
        QueueView {
            tracks: Seq::new(self.tracks@.len(), |i: int| self.tracks@[i]@),
            next_ticket: self.next_ticket,
        }
    }
}

impl TrackQueue {
    /// The queue's value is well formed.
    pub open spec fn wf(&self) -> bool {
        self@.wf()
    }

    /// An empty queue, nothing playing.
    pub fn new() -> (queue: Self)
        ensures
            queue@ == QueueView::empty(),
            queue.wf(),
    {
        let queue = TrackQueue { tracks: Vec::new(), next_ticket: 0 };
        assert(queue@.tracks =~= Seq::empty());
        queue
    }

    /// An empty queue whose tickets go on from `first_ticket`, so that they
    /// differ from those of an earlier queue that stopped short of it.
    pub fn starting_at(first_ticket: u64) -> (queue: Self)
        ensures
            queue@ == QueueView::starting_at(first_ticket),
            queue.wf(),
    {
        let queue = TrackQueue { tracks: Vec::new(), next_ticket: first_ticket };
        assert(queue@.tracks =~= Seq::empty());
        queue
    }

    /// The ticket that the next track will get.
    pub fn next_ticket(&self) -> (ticket: TrackTicket)
        ensures
            ticket == TrackTicket(self@.next_ticket),
    {
        TrackTicket(self.next_ticket)
    }

    /// Number of tracks held, the playing one included.
    pub fn len(&self) -> (n: usize)
        ensures
            n == self@.tracks.len(),
    {
        self.tracks.len()
    }

    /// Whether the queue holds no track.
    pub fn is_empty(&self) -> (empty: bool)
        ensures
            empty == (self@.tracks.len() == 0),
    {
        self.tracks.len() == 0
    }

    /// Whether a track plays.
    pub fn is_playing(&self) -> (playing: bool)
        ensures
            playing == self@.is_playing(),
    {
        self.tracks.len() > 0
    }

    /// Whether another track can be taken.
    pub fn has_room(&self) -> (free: bool)
        ensures
            free == self@.has_room(),
    {
        self.next_ticket < u64::MAX && self.tracks.len() < usize::MAX
    }

    /// The track that plays, if any.
    pub fn current(&self) -> (head: Option<&QueuedTrack>)
        ensures
            head.is_some() == self@.is_playing(),
            head matches Some(track) ==> track@ == self@.tracks[0],
    {
        if self.tracks.len() > 0 {
            Some(&self.tracks[0])
        } else {
            None
        }
    }

    /// The track at `index`, counted from 0 at the head.
    pub fn get(&self, index: usize) -> (found: Option<&QueuedTrack>)
        ensures
            found.is_some() == (index < self@.tracks.len()),
            found matches Some(track) ==> track@ == self@.tracks[index as int],
    {
        if index < self.tracks.len() {
            Some(&self.tracks[index])
        } else {
            None
        }
    }

    /// Appends `entry` under a fresh ticket. The new track is to be played at
    /// once exactly if nothing played before.
    pub fn enqueue(&mut self, entry: TrackEntry) -> (done: Enqueued)
        requires
            old(self).wf(),
            old(self)@.has_room(),
        ensures
            final(self)@ == old(self)@.enqueued(entry@),
            final(self).wf(),
            done.position == old(self)@.tracks.len() + 1,
            done.ticket == TrackTicket(old(self)@.next_ticket),
            done.start_playback == !old(self)@.is_playing(),
    {
        let ticket = TrackTicket(self.next_ticket);
        let start_playback = self.tracks.len() == 0;
        self.tracks.push(QueuedTrack { ticket, entry });
        self.next_ticket = self.next_ticket + 1;
        assert(self@.tracks =~= old(self)@.enqueued(entry@).tracks);
        proof {
            lemma_enqueued_wf(old(self)@, entry@);
        }
        Enqueued { position: self.tracks.len(), ticket, start_playback }
    }

    /// Takes the playing track off and lets the one behind it play.
    pub fn skip(&mut self) -> (outcome: SkipOutcome)
        requires
            old(self).wf(),
        ensures
            final(self)@ == old(self)@.skipped(),
            final(self).wf(),
            outcome == skip_outcome(old(self)@),
    {
        if self.tracks.len() == 0 {
            return SkipOutcome::NothingToSkip;
        }
        let gone = self.tracks.remove(0);
        assert(self@.tracks =~= old(self)@.skipped().tracks);
        proof {
            lemma_skipped_wf(old(self)@);
        }
        if self.tracks.len() == 0 {
            SkipOutcome::Stopped { skipped: gone.ticket }
        } else {
            SkipOutcome::Advanced { skipped: gone.ticket, now_playing: self.tracks[0].ticket }
        }
    }

    /// Takes every track off; nothing plays afterwards.
    pub fn stop(&mut self) -> (outcome: StopOutcome)
        requires
            old(self).wf(),
        ensures
            final(self)@ == old(self)@.stopped(),
            final(self).wf(),
            outcome == stop_outcome(old(self)@),
    {
        let cleared = self.tracks.len();
        if cleared == 0 {
            assert(self@.tracks =~= old(self)@.stopped().tracks);
            return StopOutcome::NothingToStop;
        }
        let was_playing = self.tracks[0].ticket;
        self.tracks.clear();
        assert(self@.tracks =~= old(self)@.stopped().tracks);
        StopOutcome::Stopped { was_playing, cleared }
    }

    /// Notes that the track under `ticket` ended. If it is the playing
    /// track, the one behind it plays; an end of any other track changes
    /// nothing, so a track that was skipped cannot move the queue again.
    pub fn track_ended(&mut self, ticket: TrackTicket) -> (outcome: TrackEndOutcome)
        requires
            old(self).wf(),
        ensures
            final(self)@ == old(self)@.track_ended(ticket),
            final(self).wf(),
            outcome == track_end_outcome(old(self)@, ticket),
    {
        if self.tracks.len() == 0 || self.tracks[0].ticket.0 != ticket.0 {
            return TrackEndOutcome::Ignored;
        }
        let _gone = self.tracks.remove(0);
        assert(self@.tracks =~= old(self)@.skipped().tracks);
        proof {
            lemma_skipped_wf(old(self)@);
        }
        if self.tracks.len() == 0 {
            TrackEndOutcome::Idle
        } else {
            TrackEndOutcome::Advanced { now_playing: self.tracks[0].ticket }
        }
    }
}

/// What a skip reports on a queue.
pub open spec fn skip_outcome(queue: QueueView) -> SkipOutcome {
    if queue.tracks.len() == 0 {
        SkipOutcome::NothingToSkip
    } else if queue.tracks.len() == 1 {
        SkipOutcome::Stopped { skipped: queue.tracks[0].ticket }
    } else {
        SkipOutcome::Advanced { skipped: queue.tracks[0].ticket, now_playing: queue.tracks[1].ticket }
    }
}

/// What a stop reports on a queue.
pub open spec fn stop_outcome(queue: QueueView) -> StopOutcome {
    if queue.tracks.len() == 0 {
        StopOutcome::NothingToStop
    } else {
        StopOutcome::Stopped {
            was_playing: queue.tracks[0].ticket,
            cleared: queue.tracks.len() as usize,
        }
    }
}

/// What the end of the track under `ticket` reports on a queue.
pub open spec fn track_end_outcome(queue: QueueView, ticket: TrackTicket) -> TrackEndOutcome {
    if !queue.head_is(ticket) {
        TrackEndOutcome::Ignored
    } else if queue.tracks.len() == 1 {
        TrackEndOutcome::Idle
    } else {
        TrackEndOutcome::Advanced { now_playing: queue.tracks[1].ticket }
    }
}

/// Appending under the next ticket keeps the tickets in order.
pub proof fn lemma_enqueued_wf(queue: QueueView, entry: TrackEntryView)
    requires
        queue.wf(),
        queue.has_room(),
    ensures
        queue.enqueued(entry).wf(),
        queue.enqueued(entry).tracks.len() == queue.tracks.len() + 1,
{
}

/// Taking the head off keeps the tickets in order.
pub proof fn lemma_skipped_wf(queue: QueueView)
    requires
        queue.wf(),
    ensures
        queue.skipped().wf(),
{
    if queue.tracks.len() > 0 {
        let rest = queue.skipped();
        assert forall|i: int| 0 <= i < rest.tracks.len() implies (#[trigger] rest.tracks[i]).ticket.0
            < rest.next_ticket by {
            assert(rest.tracks[i] == queue.tracks[i + 1]);
        }
        assert forall|i: int, j: int| 0 <= i < j < rest.tracks.len() implies (#[trigger] rest.tracks[i]).ticket.0
            < (#[trigger] rest.tracks[j]).ticket.0 by {
            assert(rest.tracks[i] == queue.tracks[i + 1]);
            assert(rest.tracks[j] == queue.tracks[j + 1]);
        }
    }
}

} // verus!
