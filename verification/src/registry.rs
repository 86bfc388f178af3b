//! The registry: which guild holds which voice state. Every operation names
//! one guild and touches the entry of that guild alone.

use std::collections::HashMap;
use vstd::prelude::*;
use vstd::std_specs::iter::IteratorSpec;
use crate::error::{result_view, VoiceError};
use crate::ids::{ChannelId, GuildId, TrackTicket, UserId};
use crate::queue::{
    skip_outcome, stop_outcome, track_end_outcome, Enqueued, QueueView, SkipOutcome, StopOutcome,
    TrackEndOutcome, TrackQueue,
};
use crate::session::{
    connect_outcome, connection_of, enqueue_outcome, join_outcome, leave_outcome, option_view,
    phase_of, queue_of, slot_after, ConnectStep, Connection, GuildOp, GuildSession, LeaveOutcome,
    Phase, SessionView, VoiceConnectionHandle,
};
use crate::track::TrackEntry;

verus! {

/// The mathematical value of a [`Registry`]: the guilds that have an entry,
/// each with its voice state.
pub ghost struct RegistryView {
    pub sessions: Map<GuildId, SessionView>,
}

impl RegistryView {
    /// The registry without any guild.
    pub open spec fn empty() -> RegistryView {
        RegistryView { sessions: Map::empty() }
    }

    /// The entry of `guild`, if it has one.
    pub open spec fn slot(self, guild: GuildId) -> Option<SessionView> {
        if self.sessions.contains_key(guild) {
            Some(self.sessions[guild])
        } else {
            None
        }
    }

    /// The registry with the entry of `guild` set to `slot`, or taken out
    /// where `slot` is `None`.
    pub open spec fn put(self, guild: GuildId, slot: Option<SessionView>) -> RegistryView {
        match slot {
            Some(session) => RegistryView { sessions: self.sessions.insert(guild, session) },
            None => RegistryView { sessions: self.sessions.remove(guild) },
        }
    }

    /// The registry after `op` on `guild`.
    pub open spec fn after(self, guild: GuildId, op: GuildOp) -> RegistryView {
        self.put(guild, slot_after(guild, self.slot(guild), op))
    }

    /// Every entry is well formed for its guild.
    pub open spec fn wf(self) -> bool {
        forall|guild: GuildId| #[trigger]
            self.sessions.contains_key(guild) ==> self.sessions[guild].wf(guild)
    }

    /// Whether `handle` is the voice session that its guild holds.
    pub open spec fn holds(self, handle: VoiceConnectionHandle) -> bool {
        connection_of(self.slot(handle.guild)) == (Connection::Connected { handle })
    }

    /// The voice sessions held, over all guilds.
    pub open spec fn held_handles(self) -> Set<VoiceConnectionHandle> {
        Set::new(|handle: VoiceConnectionHandle| self.holds(handle))
    }
}

/// The registry of guild voice states.
pub struct Registry {
    sessions: HashMap<u64, GuildSession>,
}

impl View for Registry {
    type V = RegistryView;

    closed spec fn view(&self) -> RegistryView {
        lift(self.sessions@)
    }
}

/// The registry value that a map from guild numbers to sessions stands for.
spec fn lift(sessions: Map<u64, GuildSession>) -> RegistryView {
    RegistryView {
        sessions: Map::new(
            |guild: GuildId| sessions.contains_key(guild.0),
            |guild: GuildId| sessions[guild.0]@,
        ),
    }
}

/// Setting or removing the session under one number sets or removes the
/// entry of that guild and leaves the others as they were.
proof fn lemma_lift_put(before: Map<u64, GuildSession>, key: u64, slot: Option<GuildSession>)
    ensures
        slot matches Some(session) ==> lift(before.insert(key, session)) == lift(before).put(
            GuildId(key),
            Some(session@),
        ),
        slot is None ==> lift(before.remove(key)) == lift(before).put(GuildId(key), None),
        lift(before).slot(GuildId(key)) == (if before.contains_key(key) {
            Some(before[key]@)
        } else {
            None
        }),
{
    match slot {
        Some(session) => {
            assert(lift(before.insert(key, session)).sessions =~= lift(before).put(
                GuildId(key),
                Some(session@),
            ).sessions);
        },
        None => {
            assert(lift(before.remove(key)).sessions =~= lift(before).put(
                GuildId(key),
                None,
            ).sessions);
        },
    }
}

impl Registry {
    /// Every entry is well formed for its guild.
    pub open spec fn wf(&self) -> bool {
        self@.wf()
    }

    /// A registry without any guild.
    pub fn new() -> (registry: Self)
        ensures
            registry@ == RegistryView::empty(),
            registry.wf(),
    {
        let registry = Registry { sessions: HashMap::new() };
        assert(registry@.sessions =~= Map::empty());
        registry
    }

    /// Takes the session of `guild` out of the map, to be put back by `put_back`.
    fn take(&mut self, guild: GuildId) -> (taken: Option<GuildSession>)
        requires
            old(self).wf(),
        ensures
            final(self).sessions@ == old(self).sessions@.remove(guild.0),
            taken is Some == old(self).sessions@.contains_key(guild.0),
            taken matches Some(session) ==> session == old(self).sessions@[guild.0],
            taken matches Some(session) ==> session@.wf(guild),
            match taken {
                Some(session) => old(self)@.slot(guild) == Some(session@),
                None => old(self)@.slot(guild) is None,
            },
    {
        broadcast use vstd::std_specs::hash::group_hash_axioms;

        assert(old(self)@.sessions.contains_key(guild) == old(self).sessions@.contains_key(guild.0));
        self.sessions.remove(&guild.0)
    }

    /// Sets the entry of `guild` to `slot`, after `take` took it out.
    fn put_back(&mut self, guild: GuildId, slot: Option<GuildSession>, Ghost(before): Ghost<Registry>)
        requires
            before.wf(),
            old(self).sessions@ == before.sessions@.remove(guild.0),
            slot matches Some(session) ==> session@.wf(guild),
        ensures
            final(self)@ == before@.put(guild, session_view(slot)),
            final(self).wf(),
    {
        broadcast use vstd::std_specs::hash::group_hash_axioms;

        proof {
            lemma_lift_put(before.sessions@, guild.0, slot);
        }
        match slot {
            Some(session) => {
                self.sessions.insert(guild.0, session);
                assert(self.sessions@ =~= before.sessions@.insert(guild.0, session));
            },
            None => {},
        }
        assert forall|other: GuildId| #[trigger]
            self@.sessions.contains_key(other) implies self@.sessions[other].wf(other) by {
            if other != guild {
                assert(before@.sessions.contains_key(other));
            }
        }
    }

    /// Whether `guild` has an entry.
    pub fn contains(&self, guild: GuildId) -> (present: bool)
        ensures
            present == self@.sessions.contains_key(guild),
    {
        broadcast use vstd::std_specs::hash::group_hash_axioms;

        self.sessions.contains_key(&guild.0)
    }

    /// The voice state of `guild`, if it has an entry.
    pub fn session(&self, guild: GuildId) -> (found: Option<&GuildSession>)
        ensures
            match found {
                Some(session) => self@.slot(guild) == Some(session@),
                None => self@.slot(guild) is None,
            },
    {
        broadcast use vstd::std_specs::hash::group_hash_axioms;

        self.sessions.get(&guild.0)
    }

    /// Where `guild` stands on the way to a voice connection; a guild
    /// without an entry is disconnected.
    pub fn connection(&self, guild: GuildId) -> (connection: Connection)
        ensures
            connection == connection_of(self@.slot(guild)),
    {
        match self.session(guild) {
            Some(session) => session.connection(),
            None => Connection::Disconnected,
        }
    }

    /// Where `guild` stands in its life; a guild without an entry is disconnected.
    pub fn phase(&self, guild: GuildId) -> (phase: Phase)
        ensures
            phase == phase_of(self@.slot(guild)),
    {
        match self.session(guild) {
            Some(session) => session.phase(),
            None => Phase::Disconnected,
        }
    }

    /// Number of tracks that `guild` holds, the playing one included.
    pub fn queue_len(&self, guild: GuildId) -> (n: usize)
        ensures
            n == queue_of(self@.slot(guild)).tracks.len(),
    {
        match self.session(guild) {
            Some(session) => session.queue().len(),
            None => 0,
        }
    }

    /// The queue of `guild`; an empty one is created where the guild had no entry.
    pub fn get_or_create_queue(&mut self, guild: GuildId) -> (queue: &TrackQueue)
        requires
            old(self).wf(),
        ensures
            final(self)@ == old(self)@.after(guild, GuildOp::CreateQueue),
            final(self).wf(),
            queue@ == queue_of(final(self)@.slot(guild)),
            !old(self)@.sessions.contains_key(guild) ==> queue@ == QueueView::empty(),
    {
        broadcast use vstd::std_specs::hash::group_hash_axioms;

        let ghost before = *self;
        let slot = match self.take(guild) {
            Some(session) => session,
            None => GuildSession::new(),
        };
        self.put_back(guild, Some(slot), Ghost(before));
        self.sessions.get(&guild.0).unwrap().queue()
    }

    /// Takes the entry of `guild` out, queue and connection state with it,
    /// and says whether there was one.
    pub fn remove_queue(&mut self, guild: GuildId) -> (removed: bool)
        requires
            old(self).wf(),
        ensures
            final(self)@ == old(self)@.after(guild, GuildOp::RemoveQueue),
            final(self).wf(),
            removed == old(self)@.sessions.contains_key(guild),
    {
        let ghost before = *self;
        let taken = self.take(guild);
        self.put_back(guild, None, Ghost(before));
        taken.is_some()
    }

    /// Decides what a caller who needs a voice connection in `guild` is to
    /// do. A held session is handed out as it is, without a new join or a
    /// move to another channel. While a join is under way the caller is told
    /// to wait for it. Otherwise a join of `candidate`, the channel that the
    /// user is in, is begun and noted; where the user is in none, the call
    /// fails with `NotInVoiceChannel` and the registry stays as it was.
    pub fn ensure_connected(&mut self, guild: GuildId, user: UserId, candidate: Option<ChannelId>) -> (step:
        Result<ConnectStep, VoiceError>)
        requires
            old(self).wf(),
        ensures
            final(self)@ == old(self)@.after(guild, GuildOp::EnsureConnected { user, candidate }),
            final(self).wf(),
            result_view(step) == connect_outcome(old(self)@.slot(guild), candidate),
    {
        let ghost before = *self;
        match self.take(guild) {
            Some(mut session) => {
                let step = session.ensure_connected(guild, user, candidate);
                self.put_back(guild, Some(session), Ghost(before));
                step
            },
            None => match candidate {
                Some(_) => {
                    let mut session = GuildSession::new();
                    let step = session.ensure_connected(guild, user, candidate);
                    self.put_back(guild, Some(session), Ghost(before));
                    step
                },
                None => {
                    self.put_back(guild, None, Ghost(before));
                    assert(final(self)@.sessions =~= old(self)@.sessions);
                    Err(VoiceError::NotInVoiceChannel)
                },
            },
        }
    }

    /// Takes in how the join that `ensure_connected` asked for ended. On
    /// success the guild holds the new session and its handle is returned.
    /// On failure the guild's entry is taken out, so that nothing partial
    /// stays, and `ConnectionFailed` carries the transport's reason. Where
    /// no join was under way nothing changes: the handle already held is
    /// returned, or `NotConnected` where there is none.
    pub fn finish_join(&mut self, guild: GuildId, result: Result<(), String>) -> (handle: Result<
        VoiceConnectionHandle,
        VoiceError,
    >)
        requires
            old(self).wf(),
        ensures
            final(self)@ == old(self)@.after(guild, GuildOp::FinishJoin { joined: result is Ok }),
            final(self).wf(),
            result_view(handle) == join_outcome(guild, old(self)@.slot(guild), reason_view(result)),
    {
        let ghost before = *self;
        match self.take(guild) {
            Some(session) => match session.connection() {
                Connection::Connecting { channel, .. } => match result {
                    Ok(_) => {
                        let handle = VoiceConnectionHandle { guild, channel };
                        let joined = session.connected(guild, handle);
                        self.put_back(guild, Some(joined), Ghost(before));
                        Ok(handle)
                    },
                    Err(reason) => {
                        self.put_back(guild, None, Ghost(before));
                        Err(VoiceError::ConnectionFailed(reason))
                    },
                },
                Connection::Connected { handle } => {
                    self.put_back(guild, Some(session), Ghost(before));
                    assert(final(self)@.sessions =~= old(self)@.sessions);
                    Ok(handle)
                },
                Connection::Disconnected => {
                    self.put_back(guild, Some(session), Ghost(before));
                    assert(final(self)@.sessions =~= old(self)@.sessions);
                    Err(VoiceError::NotConnected)
                },
            },
            None => {
                self.put_back(guild, None, Ghost(before));
                assert(final(self)@.sessions =~= old(self)@.sessions);
                Err(VoiceError::NotConnected)
            },
        }
    }

    /// Appends a track to the queue of `guild`. `resolved` is what resolving
    /// the source gave, `None` where it failed. On success the result holds
    /// the track's place, counted from 1, its ticket, and whether it is to
    /// be played at once, which is so exactly if nothing played before.
    /// Otherwise the registry stays as it was: `NotConnected` where the guild
    /// holds no session, else `SourceResolutionError` where `resolved` is
    /// `None`, else `QueueExhausted` where the queue has no room left.
    pub fn enqueue(&mut self, guild: GuildId, resolved: Option<TrackEntry>) -> (done: Result<
        Enqueued,
        VoiceError,
    >)
        requires
            old(self).wf(),
        ensures
            final(self)@ == old(self)@.after(
                guild,
                GuildOp::Enqueue { resolved: option_view(resolved) },
            ),
            final(self).wf(),
            result_view(done) == enqueue_outcome(old(self)@.slot(guild), option_view(resolved)),
    {
        let ghost before = *self;
        match self.take(guild) {
            Some(mut session) => {
                let done = session.enqueue(guild, resolved);
                self.put_back(guild, Some(session), Ghost(before));
                done
            },
            None => {
                self.put_back(guild, None, Ghost(before));
                assert(final(self)@.sessions =~= old(self)@.sessions);
                Err(VoiceError::NotConnected)
            },
        }
    }

    /// Takes the playing track of `guild` off and lets the one behind it
    /// play. Where nothing plays, nothing changes.
    pub fn skip(&mut self, guild: GuildId) -> (outcome: SkipOutcome)
        requires
            old(self).wf(),
        ensures
            final(self)@ == old(self)@.after(guild, GuildOp::Skip),
            final(self).wf(),
            outcome == skip_outcome(queue_of(old(self)@.slot(guild))),
    {
        let ghost before = *self;
        match self.take(guild) {
            Some(mut session) => {
                let outcome = session.skip(guild);
                self.put_back(guild, Some(session), Ghost(before));
                outcome
            },
            None => {
                self.put_back(guild, None, Ghost(before));
                assert(final(self)@.sessions =~= old(self)@.sessions);
                SkipOutcome::NothingToSkip
            },
        }
    }

    /// Stops playback in `guild` and takes every track off its queue.
    pub fn stop(&mut self, guild: GuildId) -> (outcome: StopOutcome)
        requires
            old(self).wf(),
        ensures
            final(self)@ == old(self)@.after(guild, GuildOp::Stop),
            final(self).wf(),
            outcome == stop_outcome(queue_of(old(self)@.slot(guild))),
            queue_of(final(self)@.slot(guild)).tracks.len() == 0,
    {
        let ghost before = *self;
        match self.take(guild) {
            Some(mut session) => {
                let outcome = session.stop(guild);
                self.put_back(guild, Some(session), Ghost(before));
                outcome
            },
            None => {
                self.put_back(guild, None, Ghost(before));
                assert(final(self)@.sessions =~= old(self)@.sessions);
                StopOutcome::NothingToStop
            },
        }
    }

    /// Leaves voice in `guild`: the entry goes, queue and all, and the
    /// result names the session to disconnect and the track to stop.
    pub fn leave(&mut self, guild: GuildId) -> (outcome: LeaveOutcome)
        requires
            old(self).wf(),
        ensures
            final(self)@ == old(self)@.after(guild, GuildOp::Leave),
            final(self).wf(),
            outcome == leave_outcome(old(self)@.slot(guild)),
            !final(self)@.sessions.contains_key(guild),
    {
        let ghost before = *self;
        let taken = self.take(guild);
        self.put_back(guild, None, Ghost(before));
        match taken {
            Some(session) => {
                let was_playing = match session.queue().current() {
                    Some(track) => Some(track.ticket),
                    None => None,
                };
                LeaveOutcome {
                    handle: session.handle(),
                    was_playing,
                    cleared: session.queue().len(),
                }
            },
            None => LeaveOutcome { handle: None, was_playing: None, cleared: 0 },
        }
    }

    /// The guilds that have an entry, each once, in no particular order.
    pub fn guilds(&self) -> (guilds: Vec<GuildId>)
        ensures
            guilds@.no_duplicates(),
            guilds@.to_set() == self@.sessions.dom(),
    {
        broadcast use vstd::std_specs::hash::group_hash_axioms;

        let mut guilds: Vec<GuildId> = Vec::new();
        let ghost all = vstd::std_specs::hash::spec_keys_iter(&self.sessions).remaining();
        let ghost numbers = all.unref();
        for key in keys: self.sessions.keys()
            invariant
                keys.seq() == all,
                guilds@.len() == keys.index(),
                forall|i: int| 0 <= i < guilds@.len() ==> guilds@[i].0 == *all[i],
        {
            guilds.push(GuildId(*key));
        }
        proof {
            assert(guilds@.len() == all.len());
            assert(all.no_duplicates());
            assert(numbers.to_set() == self.sessions@.dom());
            assert forall|i: int, j: int|
                0 <= i < guilds@.len() && 0 <= j < guilds@.len() && i != j implies guilds@[i]
                != guilds@[j] by {
                assert(all[i] != all[j]);
            }
            assert forall|guild: GuildId|
                guilds@.to_set().contains(guild) == self@.sessions.dom().contains(guild) by {
                if guilds@.to_set().contains(guild) {
                    let i = choose|i: int| 0 <= i < guilds@.len() && guilds@[i] == guild;
                    assert(numbers[i] == guild.0);
                    assert(numbers.to_set().contains(guild.0));
                }
                if self@.sessions.dom().contains(guild) {
                    assert(numbers.to_set().contains(guild.0));
                    let i = choose|i: int| 0 <= i < numbers.len() && numbers[i] == guild.0;
                    assert(guilds@[i] == guild);
                }
            }
            assert(guilds@.to_set() =~= self@.sessions.dom());
        }
        guilds
    }

    /// The handle of the voice session of `guild`, if it holds one.
    pub fn handle(&self, guild: GuildId) -> (handle: Option<VoiceConnectionHandle>)
        ensures
            handle == (match connection_of(self@.slot(guild)) {
                Connection::Connected { handle } => Some(handle),
                _ => None,
            }),
    {
        match self.session(guild) {
            Some(session) => session.handle(),
            None => None,
        }
    }

    /// Ends every voice session: the registry is left without any guild,
    /// and the result names each session that was held, once, so that it
    /// can be disconnected.
    pub fn shutdown(&mut self) -> (handles: Vec<VoiceConnectionHandle>)
        requires
            old(self).wf(),
        ensures
            final(self)@ == RegistryView::empty(),
            final(self).wf(),
            handles@.no_duplicates(),
            handles@.to_set() == old(self)@.held_handles(),
    {
        let guilds = self.guilds();
        let mut handles: Vec<VoiceConnectionHandle> = Vec::new();
        let mut i: usize = 0;
        while i < guilds.len()
            invariant
                0 <= i <= guilds@.len(),
                self.wf(),
                guilds@.no_duplicates(),
                guilds@.to_set() == self@.sessions.dom(),
                handles@.no_duplicates(),
                forall|k: int|
                    0 <= k < handles@.len() ==> self@.holds(#[trigger] handles@[k])
                        && guilds@.subrange(0, i as int).contains(handles@[k].guild),
                forall|j: int|
                    0 <= j < i ==> (connection_of(self@.slot(#[trigger] guilds@[j]))
                        matches Connection::Connected { handle } ==> handles@.contains(handle)),
            decreases guilds@.len() - i,
        {
            let guild = guilds[i];
            let ghost seen = guilds@.subrange(0, i as int);
            let ghost earlier = handles@;
            match self.handle(guild) {
                Some(handle) => {
                    proof {
                        assert(self@.sessions.dom().contains(guild));
                        assert(handle.guild == guild);
                        assert forall|k: int| 0 <= k < handles@.len() implies handles@[k]
                            != handle by {
                            let j = choose|j: int|
                                0 <= j < seen.len() && seen[j] == handles@[k].guild;
                            assert(guilds@[j] == seen[j]);
                        }
                    }
                    handles.push(handle);
                },
                None => {},
            }
            i = i + 1;
            proof {
                let now = guilds@.subrange(0, i as int);
                assert(now[i - 1] == guild);
                assert forall|k: int| 0 <= k < handles@.len() implies now.contains(
                    (#[trigger] handles@[k]).guild,
                ) by {
                    if seen.contains(handles@[k].guild) {
                        let j = choose|j: int|
                            0 <= j < seen.len() && seen[j] == handles@[k].guild;
                        assert(now[j] == seen[j]);
                    }
                }
                assert forall|j: int| 0 <= j < i implies (connection_of(
                    self@.slot(#[trigger] guilds@[j]),
                ) matches Connection::Connected { handle } ==> handles@.contains(handle)) by {
                    if let Connection::Connected { handle } = connection_of(
                        self@.slot(guilds@[j]),
                    ) {
                        if j == i - 1 {
                            assert(handles@[handles@.len() - 1] == handle);
                        } else {
                            let k = choose|k: int| 0 <= k < earlier.len() && earlier[k] == handle;
                            assert(handles@[k] == handle);
                        }
                    }
                }
            }
        }
        proof {
            assert forall|handle: VoiceConnectionHandle|
                handles@.to_set().contains(handle) == self@.held_handles().contains(handle) by {
                if self@.holds(handle) {
                    assert(guilds@.to_set().contains(handle.guild));
                    let j = choose|j: int| 0 <= j < guilds@.len() && guilds@[j] == handle.guild;
                    assert(handles@.contains(handle));
                }
            }
            assert(handles@.to_set() =~= self@.held_handles());
        }
        self.sessions.clear();
        assert(self@.sessions =~= Map::empty());
        handles
    }

    /// Takes in that the track under `ticket` ended in `guild`. If it is the
    /// playing track, the one behind it plays; otherwise nothing changes.
    pub fn track_ended(&mut self, guild: GuildId, ticket: TrackTicket) -> (outcome: TrackEndOutcome)
        requires
            old(self).wf(),
        ensures
            final(self)@ == old(self)@.after(guild, GuildOp::TrackEnded { ticket }),
            final(self).wf(),
            outcome == track_end_outcome(queue_of(old(self)@.slot(guild)), ticket),
    {
        let ghost before = *self;
        match self.take(guild) {
            Some(mut session) => {
                let outcome = session.track_ended(guild, ticket);
                self.put_back(guild, Some(session), Ghost(before));
                outcome
            },
            None => {
                self.put_back(guild, None, Ghost(before));
                assert(final(self)@.sessions =~= old(self)@.sessions);
                TrackEndOutcome::Ignored
            },
        }
    }
}

/// An optional session taken by its view.
pub open spec fn session_view(slot: Option<GuildSession>) -> Option<SessionView> {
    match slot {
        Some(session) => Some(session@),
        None => None,
    }
}

/// The end of a join with the transport's reason taken by its view.
pub open spec fn reason_view(result: Result<(), String>) -> Result<(), Seq<char>> {
    match result {
        Ok(_) => Ok(()),
        Err(reason) => Err(reason@),
    }
}

} // verus!
