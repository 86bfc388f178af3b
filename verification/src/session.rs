//! The voice state of one guild: its connection and its queue, and how each
//! operation changes them.

use vstd::prelude::*;
use crate::error::{result_view, VoiceError, VoiceErrorView};
use crate::ids::{ChannelId, GuildId, TrackTicket, UserId};
use crate::queue::{
    skip_outcome, stop_outcome, track_end_outcome, Enqueued, QueueView, SkipOutcome, StopOutcome,
    TrackEndOutcome, TrackQueue,
};
use crate::track::{TrackEntry, TrackEntryView};

verus! {

/// Stands for an active voice session of one guild. The transport owns the
/// session itself; this names it, so that play, stop and disconnect can be
/// asked of it.
#[derive(Clone, Copy, Debug, PartialEq, Eq, Hash, Structural)]
pub struct VoiceConnectionHandle {
    pub guild: GuildId,
    pub channel: ChannelId,
}

/// Where a guild stands on the way to a voice connection.
#[derive(Clone, Copy, Debug, PartialEq, Eq, Structural)]
pub enum Connection {
    /// No voice session and no join under way.
    Disconnected,
    /// A join of `channel` was asked of the transport and has not ended yet.
    Connecting { channel: ChannelId, requested_by: UserId },
    /// A voice session is held.
    Connected { handle: VoiceConnectionHandle },
}

/// Where a guild stands in its life: without a voice session, on the way
/// to one, or in one, with or without a track playing.
#[derive(Clone, Copy, Debug, PartialEq, Eq, Structural)]
pub enum Phase {
    Disconnected,
    Connecting,
    Idle,
    Playing,
}

/// What is to be done for a caller who needs a voice connection.
#[derive(Clone, Copy, Debug, PartialEq, Eq, Structural)]
pub enum ConnectStep {
    /// The guild is connected: use this handle.
    Ready(VoiceConnectionHandle),
    /// Ask the transport to join this channel, and report how it ended.
    Join(ChannelId),
    /// Another caller's join is under way: ask nothing of the transport.
    Pending,
}

/// What leaving a guild's voice session calls for.
#[derive(Clone, Copy, Debug, PartialEq, Eq, Structural)]
pub struct LeaveOutcome {
    /// The session to disconnect, if one was held.
    pub handle: Option<VoiceConnectionHandle>,
    /// The track to stop, if one played.
    pub was_playing: Option<TrackTicket>,
    /// How many tracks were taken off the queue.
    pub cleared: usize,
}

/// The mathematical value of a [`GuildSession`].
pub ghost struct SessionView {
    pub connection: Connection,
    pub queue: QueueView,
}

/// One operation on one guild.
pub ghost enum GuildOp {
    CreateQueue,
    RemoveQueue,
    EnsureConnected { user: UserId, candidate: Option<ChannelId> },
    FinishJoin { joined: bool },
    Enqueue { resolved: Option<TrackEntryView> },
    Skip,
    Stop,
    Leave,
    TrackEnded { ticket: TrackTicket },
}

impl SessionView {
    /// The state of a guild whose queue was just created.
    pub open spec fn fresh() -> SessionView {
        SessionView { connection: Connection::Disconnected, queue: QueueView::empty() }
    }

    /// The queue is in order, plays only over a voice session, and the
    /// session held is one of `guild`.
    pub open spec fn wf(self, guild: GuildId) -> bool {
        &&& self.queue.wf()
        &&& self.queue.is_playing() ==> self.connection is Connected
        &&& self.connection matches Connection::Connected { handle } ==> handle.guild == guild
    }

    /// The handle of the voice session, if one is held.
    pub open spec fn handle(self) -> Option<VoiceConnectionHandle> {
        match self.connection {
            Connection::Connected { handle } => Some(handle),
            _ => None,
        }
    }

    /// The same connection over another queue.
    pub open spec fn with_queue(self, queue: QueueView) -> SessionView {
        SessionView { connection: self.connection, queue }
    }

    /// The same queue under another connection.
    pub open spec fn with_connection(self, connection: Connection) -> SessionView {
        SessionView { connection, queue: self.queue }
    }
}

/// The connection of a guild whose registry entry is `slot`; a guild without
/// an entry is disconnected.
pub open spec fn connection_of(slot: Option<SessionView>) -> Connection {
    match slot {
        Some(session) => session.connection,
        None => Connection::Disconnected,
    }
}

/// The phase of a guild whose registry entry is `slot`.
pub open spec fn phase_of(slot: Option<SessionView>) -> Phase {
    match connection_of(slot) {
        Connection::Disconnected => Phase::Disconnected,
        Connection::Connecting { .. } => Phase::Connecting,
        Connection::Connected { .. } => if queue_of(slot).is_playing() {
            Phase::Playing
        } else {
            Phase::Idle
        },
    }
}

/// Whether an enqueue on `slot` is taken: a session is held, the source was
/// resolved and the queue has room.
pub open spec fn enqueue_outcome(slot: Option<SessionView>, resolved: Option<TrackEntryView>) -> Result<
    Enqueued,
    VoiceErrorView,
> {
    match slot {
        Some(session) if session.connection is Connected => {
            if resolved is None {
                Err(VoiceErrorView::SourceResolutionError)
            } else if !session.queue.has_room() {
                Err(VoiceErrorView::QueueExhausted)
            } else {
                Ok(
                    Enqueued {
                        position: (session.queue.tracks.len() + 1) as usize,
                        ticket: TrackTicket(session.queue.next_ticket),
                        start_playback: !session.queue.is_playing(),
                    },
                )
            }
        },
        _ => Err(VoiceErrorView::NotConnected),
    }
}

/// What a caller who needs a connection is told on `slot`.
pub open spec fn connect_outcome(slot: Option<SessionView>, candidate: Option<ChannelId>) -> Result<
    ConnectStep,
    VoiceErrorView,
> {
    match connection_of(slot) {
        Connection::Connected { handle } => Ok(ConnectStep::Ready(handle)),
        Connection::Connecting { .. } => Ok(ConnectStep::Pending),
        Connection::Disconnected => match candidate {
            Some(channel) => Ok(ConnectStep::Join(channel)),
            None => Err(VoiceErrorView::NotInVoiceChannel),
        },
    }
}

/// What the end of a join reports on `slot`: the new handle where the join
/// under way succeeded, the transport's reason where it failed; where no
/// join was under way, the handle already held, if any.
pub open spec fn join_outcome(
    guild: GuildId,
    slot: Option<SessionView>,
    result: Result<(), Seq<char>>,
) -> Result<VoiceConnectionHandle, VoiceErrorView> {
    match connection_of(slot) {
        Connection::Connecting { channel, .. } => match result {
            Ok(_) => Ok(VoiceConnectionHandle { guild, channel }),
            Err(reason) => Err(VoiceErrorView::ConnectionFailed(reason)),
        },
        Connection::Connected { handle } => Ok(handle),
        Connection::Disconnected => Err(VoiceErrorView::NotConnected),
    }
}

/// What leaving reports on `slot`.
pub open spec fn leave_outcome(slot: Option<SessionView>) -> LeaveOutcome {
    match slot {
        Some(session) => LeaveOutcome {
            handle: session.handle(),
            was_playing: if session.queue.is_playing() {
                Some(session.queue.tracks[0].ticket)
            } else {
                None
            },
            cleared: session.queue.tracks.len() as usize,
        },
        None => LeaveOutcome { handle: None, was_playing: None, cleared: 0 },
    }
}

/// The queue of a guild whose registry entry is `slot`; a guild without an
/// entry has the empty queue.
pub open spec fn queue_of(slot: Option<SessionView>) -> QueueView {
    match slot {
        Some(session) => session.queue,
        None => QueueView::empty(),
    }
}

/// The registry entry of `guild` after `op`, where it was `slot` before.
/// `None` is a guild without an entry.
pub open spec fn slot_after(guild: GuildId, slot: Option<SessionView>, op: GuildOp) -> Option<
    SessionView,
> {
    match op {
        GuildOp::CreateQueue => match slot {
            Some(_) => slot,
            None => Some(SessionView::fresh()),
        },
        GuildOp::RemoveQueue => None,
        GuildOp::Leave => None,
        GuildOp::EnsureConnected { user, candidate } => match (connection_of(slot), candidate) {
            (Connection::Disconnected, Some(channel)) => Some(
                SessionView {
                    connection: Connection::Connecting { channel, requested_by: user },
                    queue: queue_of(slot),
                },
            ),
            _ => slot,
        },
        GuildOp::FinishJoin { joined } => match slot {
            Some(session) => match session.connection {
                Connection::Connecting { channel, .. } => if joined {
                    Some(
                        session.with_connection(
                            Connection::Connected {
                                handle: VoiceConnectionHandle { guild, channel },
                            },
                        ),
                    )
                } else {
                    None
                },
                _ => slot,
            },
            None => slot,
        },
        GuildOp::Enqueue { resolved } => match (slot, resolved) {
            (Some(session), Some(entry)) => if enqueue_outcome(slot, resolved) is Ok {
                Some(session.with_queue(session.queue.enqueued(entry)))
            } else {
                slot
            },
            _ => slot,
        },
        GuildOp::Skip => match slot {
            Some(session) => Some(session.with_queue(session.queue.skipped())),
            None => slot,
        },
        GuildOp::Stop => match slot {
            Some(session) => Some(session.with_queue(session.queue.stopped())),
            None => slot,
        },
        GuildOp::TrackEnded { ticket } => match slot {
            Some(session) => Some(session.with_queue(session.queue.track_ended(ticket))),
            None => slot,
        },
    }
}

/// Whether a registry entry, if there is one, is well formed for `guild`.
pub open spec fn slot_wf(guild: GuildId, slot: Option<SessionView>) -> bool {
    slot matches Some(session) ==> session.wf(guild)
}

/// The voice state of one guild.
#[derive(Debug)]
pub struct GuildSession {
    connection: Connection,
    queue: TrackQueue,
}

impl View for GuildSession {
    type V = SessionView;

    closed spec fn view(&self) -> SessionView {
        SessionView { connection: self.connection, queue: self.queue@ }
    }
}

impl GuildSession {
    /// A disconnected guild with an empty queue.
    pub fn new() -> (session: Self)
        ensures
            session@ == SessionView::fresh(),
            forall|guild: GuildId| session@.wf(guild),
    {
        GuildSession { connection: Connection::Disconnected, queue: TrackQueue::new() }
    }

    /// A disconnected guild over `queue`, which holds no track.
    pub fn with_queue(queue: TrackQueue) -> (session: Self)
        requires
            queue.wf(),
            !queue@.is_playing(),
        ensures
            session@ == SessionView::fresh().with_queue(queue@),
            forall|guild: GuildId| session@.wf(guild),
    {
        GuildSession { connection: Connection::Disconnected, queue }
    }

    /// Where the guild stands in its life.
    pub fn phase(&self) -> (phase: Phase)
        ensures
            phase == phase_of(Some(self@)),
    {
        match self.connection {
            Connection::Disconnected => Phase::Disconnected,
            Connection::Connecting { .. } => Phase::Connecting,
            Connection::Connected { .. } => if self.queue.is_playing() {
                Phase::Playing
            } else {
                Phase::Idle
            },
        }
    }

    /// Where the guild stands on the way to a voice connection.
    pub fn connection(&self) -> (connection: Connection)
        ensures
            connection == self@.connection,
    {
        self.connection
    }

    /// The handle of the voice session, if one is held.
    pub fn handle(&self) -> (handle: Option<VoiceConnectionHandle>)
        ensures
            handle == self@.handle(),
    {
        match self.connection {
            Connection::Connected { handle } => Some(handle),
            _ => None,
        }
    }

    /// The guild's queue.
    pub fn queue(&self) -> (queue: &TrackQueue)
        ensures
            queue@ == self@.queue,
    {
        &self.queue
    }

    /// The same guild, now holding the voice session `handle`.
    pub fn connected(self, guild: GuildId, handle: VoiceConnectionHandle) -> (session: Self)
        requires
            self@.wf(guild),
            handle.guild == guild,
        ensures
            session@ == self@.with_connection(Connection::Connected { handle }),
            session@.wf(guild),
    {
        GuildSession { connection: Connection::Connected { handle }, queue: self.queue }
    }

    /// Decides what a caller who needs a voice connection is to do. A held
    /// session is handed out as it is; while a join is under way the caller
    /// is told to wait; otherwise a join of the user's channel is begun, or
    /// refused where the user is in none.
    pub fn ensure_connected(&mut self, guild: GuildId, user: UserId, candidate: Option<ChannelId>) -> (step:
        Result<ConnectStep, VoiceError>)
        requires
            old(self)@.wf(guild),
        ensures
            Some(final(self)@) == slot_after(
                guild,
                Some(old(self)@),
                GuildOp::EnsureConnected { user, candidate },
            ),
            final(self)@.wf(guild),
            result_view(step) == connect_outcome(Some(old(self)@), candidate),
    {
        match self.connection {
            Connection::Connected { handle } => Ok(ConnectStep::Ready(handle)),
            Connection::Connecting { .. } => Ok(ConnectStep::Pending),
            Connection::Disconnected => match candidate {
                Some(channel) => {
                    self.connection = Connection::Connecting { channel, requested_by: user };
                    Ok(ConnectStep::Join(channel))
                },
                None => Err(VoiceError::NotInVoiceChannel),
            },
        }
    }

    /// Appends a resolved track and says whether it is to be played at once.
    /// Refused, with the queue as it was, where no session is held, the
    /// source was not resolved, or the queue has no room.
    pub fn enqueue(&mut self, guild: GuildId, resolved: Option<TrackEntry>) -> (done: Result<
        Enqueued,
        VoiceError,
    >)
        requires
            old(self)@.wf(guild),
        ensures
            Some(final(self)@) == slot_after(
                guild,
                Some(old(self)@),
                GuildOp::Enqueue { resolved: option_view(resolved) },
            ),
            final(self)@.wf(guild),
            result_view(done) == enqueue_outcome(Some(old(self)@), option_view(resolved)),
    {
        match self.connection {
            Connection::Connected { .. } => {},
            _ => {
                return Err(VoiceError::NotConnected);
            },
        }
        match resolved {
            None => Err(VoiceError::SourceResolutionError),
            Some(entry) => {
                if !self.queue.has_room() {
                    return Err(VoiceError::QueueExhausted);
                }
                Ok(self.queue.enqueue(entry))
            },
        }
    }

    /// Takes the playing track off and lets the one behind it play.
    pub fn skip(&mut self, guild: GuildId) -> (outcome: SkipOutcome)
        requires
            old(self)@.wf(guild),
        ensures
            Some(final(self)@) == slot_after(guild, Some(old(self)@), GuildOp::Skip),
            final(self)@.wf(guild),
            outcome == skip_outcome(old(self)@.queue),
    {
        self.queue.skip()
    }

    /// Takes every track off the queue.
    pub fn stop(&mut self, guild: GuildId) -> (outcome: StopOutcome)
        requires
            old(self)@.wf(guild),
        ensures
            Some(final(self)@) == slot_after(guild, Some(old(self)@), GuildOp::Stop),
            final(self)@.wf(guild),
            outcome == stop_outcome(old(self)@.queue),
    {
        self.queue.stop()
    }

    /// Notes that the track under `ticket` ended.
    pub fn track_ended(&mut self, guild: GuildId, ticket: TrackTicket) -> (outcome: TrackEndOutcome)
        requires
            old(self)@.wf(guild),
        ensures
            Some(final(self)@) == slot_after(guild, Some(old(self)@), GuildOp::TrackEnded { ticket }),
            final(self)@.wf(guild),
            outcome == track_end_outcome(old(self)@.queue, ticket),
    {
        self.queue.track_ended(ticket)
    }
}

/// An optional entry taken by its view.
pub open spec fn option_view(entry: Option<TrackEntry>) -> Option<TrackEntryView> {
    match entry {
        Some(e) => Some(e@),
        None => None,
    }
}

} // verus!
