//! What holds of the operations taken together.

use vstd::prelude::*;
use crate::error::VoiceErrorView;
use crate::ids::{ChannelId, GuildId, UserId};
use crate::queue::{
    lemma_enqueued_wf, lemma_skipped_wf, skip_outcome, stop_outcome, track_end_outcome, Enqueued,
    QueueView, SkipOutcome, StopOutcome, TrackEndOutcome,
};
use crate::registry::RegistryView;
use crate::session::{
    connect_outcome, connection_of, enqueue_outcome, phase_of, queue_of, slot_after, slot_wf,
    ConnectStep, GuildOp, Phase, SessionView, VoiceConnectionHandle,
};
use crate::track::{QueuedTrackView, TrackEntryView};

verus! {

/// The entries of a queue in playing order, without their tickets.
pub open spec fn entries_of(queue: QueueView) -> Seq<TrackEntryView> {
    queue.tracks.map_values(|track: QueuedTrackView| track.entry)
}

/// The entry of a guild after one enqueue for each item of `resolved`, in
/// that order; an item is what resolving a source gave.
pub open spec fn slot_after_enqueues(
    guild: GuildId,
    slot: Option<SessionView>,
    resolved: Seq<Option<TrackEntryView>>,
) -> Option<SessionView>
    decreases resolved.len(),
{
    if resolved.len() == 0 {
        slot
    } else {
        slot_after_enqueues(
            guild,
            slot_after(guild, slot, GuildOp::Enqueue { resolved: resolved[0] }),
            resolved.drop_first(),
        )
    }
}

/// The entries whose enqueue succeeded, in the order of the calls, where
/// one enqueue is made for each item of `resolved`.
pub open spec fn taken_entries(
    guild: GuildId,
    slot: Option<SessionView>,
    resolved: Seq<Option<TrackEntryView>>,
) -> Seq<TrackEntryView>
    decreases resolved.len(),
{
    if resolved.len() == 0 {
        Seq::empty()
    } else {
        let rest = taken_entries(
            guild,
            slot_after(guild, slot, GuildOp::Enqueue { resolved: resolved[0] }),
            resolved.drop_first(),
        );
        match (enqueue_outcome(slot, resolved[0]), resolved[0]) {
            (Ok(_), Some(entry)) => seq![entry] + rest,
            _ => rest,
        }
    }
}

/// The sources that were resolved, in order.
pub open spec fn resolved_entries(resolved: Seq<Option<TrackEntryView>>) -> Seq<TrackEntryView>
    decreases resolved.len(),
{
    if resolved.len() == 0 {
        Seq::empty()
    } else {
        match resolved[0] {
            Some(entry) => seq![entry] + resolved_entries(resolved.drop_first()),
            None => resolved_entries(resolved.drop_first()),
        }
    }
}

/// An operation keeps a well-formed entry well formed.
pub proof fn lemma_slot_after_wf(guild: GuildId, slot: Option<SessionView>, op: GuildOp)
    requires
        slot_wf(guild, slot),
    ensures
        slot_wf(guild, slot_after(guild, slot, op)),
{
    match slot {
        Some(session) => {
            lemma_skipped_wf(session.queue);
            match op {
                GuildOp::Enqueue { resolved: Some(entry) } => {
                    if session.queue.has_room() {
                        lemma_enqueued_wf(session.queue, entry);
                    }
                },
                _ => {},
            }
        },
        None => {},
    }
}

/// An operation on one guild keeps a well-formed registry well formed.
pub proof fn lemma_after_wf(registry: RegistryView, guild: GuildId, op: GuildOp)
    requires
        registry.wf(),
    ensures
        registry.after(guild, op).wf(),
{
    lemma_slot_after_wf(guild, registry.slot(guild), op);
    let next = registry.after(guild, op);
    assert forall|other: GuildId| #[trigger]
        next.sessions.contains_key(other) implies next.sessions[other].wf(other) by {
        if other != guild {
            assert(registry.sessions.contains_key(other));
        }
    }
}

/// An operation on a guild changes the entry of that guild as the
/// operation says, whatever else the registry holds.
pub proof fn lemma_after_slot(registry: RegistryView, guild: GuildId, op: GuildOp)
    ensures
        registry.after(guild, op).slot(guild) == slot_after(guild, registry.slot(guild), op),
{
}

/// Enqueues on one guild lose nothing, repeat nothing and keep the order of
/// the calls: afterwards the queue holds what it held before, followed by
/// the entries of the calls that succeeded, in the order in which the calls
/// were made. So its length has grown by the number of successes.
pub proof fn lemma_enqueues_in_call_order(
    guild: GuildId,
    slot: Option<SessionView>,
    resolved: Seq<Option<TrackEntryView>>,
)
    ensures
        entries_of(queue_of(slot_after_enqueues(guild, slot, resolved))) == entries_of(
            queue_of(slot),
        ) + taken_entries(guild, slot, resolved),
        queue_of(slot_after_enqueues(guild, slot, resolved)).tracks.len() == queue_of(
            slot,
        ).tracks.len() + taken_entries(guild, slot, resolved).len(),
    decreases resolved.len(),
{
    let before = entries_of(queue_of(slot));
    if resolved.len() == 0 {
        assert(before + Seq::<TrackEntryView>::empty() =~= before);
    } else {
        let next = slot_after(guild, slot, GuildOp::Enqueue { resolved: resolved[0] });
        let rest = taken_entries(guild, next, resolved.drop_first());
        lemma_enqueues_in_call_order(guild, next, resolved.drop_first());
        match (enqueue_outcome(slot, resolved[0]), resolved[0]) {
            (Ok(_), Some(entry)) => {
                assert(entries_of(queue_of(next)) =~= before + seq![entry]);
                assert((before + seq![entry]) + rest =~= before + (seq![entry] + rest));
            },
            _ => {
                assert(next == slot);
            },
        }
    }
}

/// On a guild that holds a voice session and has room enough, every
/// resolved source is taken: the calls that succeed are those whose source
/// was resolved.
pub proof fn lemma_resolved_sources_are_taken(
    guild: GuildId,
    session: SessionView,
    resolved: Seq<Option<TrackEntryView>>,
)
    requires
        session.connection is Connected,
        session.queue.next_ticket + resolved.len() <= u64::MAX,
        session.queue.tracks.len() + resolved.len() <= usize::MAX,
    ensures
        taken_entries(guild, Some(session), resolved) == resolved_entries(resolved),
    decreases resolved.len(),
{
    if resolved.len() > 0 {
        let next = slot_after(guild, Some(session), GuildOp::Enqueue { resolved: resolved[0] });
        lemma_resolved_sources_are_taken(guild, next->0, resolved.drop_first());
    }
}

/// An enqueue that is taken on a queue where nothing plays starts playback
/// and returns place 1; one that is taken while a track plays starts
/// nothing and returns the length of the queue after the insert.
pub proof fn lemma_enqueue_position(guild: GuildId, slot: Option<SessionView>, entry: TrackEntryView)
    requires
        enqueue_outcome(slot, Some(entry)) is Ok,
    ensures
        ({
            let done: Enqueued = enqueue_outcome(slot, Some(entry))->Ok_0;
            let after = queue_of(slot_after(guild, slot, GuildOp::Enqueue { resolved: Some(entry) }));
            &&& done.position == after.tracks.len()
            &&& after.tracks[done.position - 1].entry == entry
            &&& after.tracks[done.position - 1].ticket == done.ticket
            &&& after.is_playing()
            &&& !queue_of(slot).is_playing() ==> done.position == 1 && done.start_playback
            &&& queue_of(slot).is_playing() ==> !done.start_playback && after.tracks[0]
                == queue_of(slot).tracks[0]
        }),
{
}

/// A skip on a queue of two or more tracks takes the head off and lets the
/// second play; on a queue of one it leaves the queue empty and nothing
/// playing; where nothing plays it changes nothing and says so.
pub proof fn lemma_skip_cases(guild: GuildId, slot: Option<SessionView>)
    ensures
        ({
            let before = queue_of(slot);
            let after = queue_of(slot_after(guild, slot, GuildOp::Skip));
            &&& before.tracks.len() >= 2 ==> {
                &&& after.tracks == before.tracks.drop_first()
                &&& after.tracks[0] == before.tracks[1]
                &&& after.is_playing()
                &&& skip_outcome(before) == SkipOutcome::Advanced {
                    skipped: before.tracks[0].ticket,
                    now_playing: before.tracks[1].ticket,
                }
            }
            &&& before.tracks.len() == 1 ==> {
                &&& after.tracks.len() == 0
                &&& !after.is_playing()
                &&& skip_outcome(before) == SkipOutcome::Stopped { skipped: before.tracks[0].ticket }
            }
            &&& before.tracks.len() == 0 ==> {
                &&& slot_after(guild, slot, GuildOp::Skip) == slot
                &&& skip_outcome(before) == SkipOutcome::NothingToSkip
            }
        }),
{
}

/// After a stop the queue is empty and nothing plays, whatever was there
/// before; a second stop changes nothing.
pub proof fn lemma_stop_empties(guild: GuildId, slot: Option<SessionView>)
    ensures
        ({
            let stopped = slot_after(guild, slot, GuildOp::Stop);
            &&& queue_of(stopped).tracks.len() == 0
            &&& !queue_of(stopped).is_playing()
            &&& connection_of(stopped) == connection_of(slot)
            &&& slot_after(guild, stopped, GuildOp::Stop) == stopped
            &&& stop_outcome(queue_of(stopped)) == StopOutcome::NothingToStop
        }),
{
}

/// A track that was skipped cannot move the queue a second time: when its
/// end is reported after the skip, nothing changes.
pub proof fn lemma_skipped_track_end_is_ignored(guild: GuildId, slot: Option<SessionView>)
    requires
        slot_wf(guild, slot),
        queue_of(slot).is_playing(),
    ensures
        ({
            let ticket = queue_of(slot).tracks[0].ticket;
            let skipped = slot_after(guild, slot, GuildOp::Skip);
            &&& slot_after(guild, skipped, GuildOp::TrackEnded { ticket }) == skipped
            &&& track_end_outcome(queue_of(skipped), ticket) == TrackEndOutcome::Ignored
        }),
{
    let before = queue_of(slot);
    let after = queue_of(slot_after(guild, slot, GuildOp::Skip));
    if after.tracks.len() > 0 {
        assert(after.tracks[0] == before.tracks[1]);
        assert(before.tracks[0].ticket.0 < before.tracks[1].ticket.0);
    }
}

/// The end of the playing track and a skip lead to the same queue.
pub proof fn lemma_track_end_advances_like_skip(guild: GuildId, slot: Option<SessionView>)
    requires
        queue_of(slot).is_playing(),
    ensures
        slot_after(guild, slot, GuildOp::TrackEnded { ticket: queue_of(slot).tracks[0].ticket })
            == slot_after(guild, slot, GuildOp::Skip),
{
}

/// A guild moves through its phases in one way only. From disconnected it
/// can do nothing but begin a join, and a join is begun from nowhere else;
/// a join under way ends in an idle session or back in disconnected; a
/// track plays only in a session, and the first one starts from idle.
pub proof fn lemma_phase_steps(guild: GuildId, slot: Option<SessionView>, op: GuildOp)
    requires
        slot_wf(guild, slot),
    ensures
        ({
            let before = phase_of(slot);
            let after = phase_of(slot_after(guild, slot, op));
            &&& before == Phase::Disconnected ==> after == Phase::Disconnected || (after
                == Phase::Connecting && op is EnsureConnected)
            &&& before == Phase::Connecting ==> after == Phase::Connecting || (after == Phase::Idle
                && op == GuildOp::FinishJoin { joined: true }) || after == Phase::Disconnected
            &&& before == Phase::Idle ==> after == Phase::Idle || (after == Phase::Playing
                && op is Enqueue) || after == Phase::Disconnected
            &&& before == Phase::Playing ==> after == Phase::Playing || after == Phase::Idle
                || after == Phase::Disconnected
            &&& after == Phase::Disconnected && before != Phase::Disconnected ==> op is Leave
                || op is RemoveQueue || op == GuildOp::FinishJoin { joined: false }
        }),
{
}

/// Guilds do not see each other: an operation on one guild leaves the entry
/// of every other guild as it was, so what an operation on the other guild
/// does and returns is the same before and after; and two operations on two
/// guilds lead to the same registry in either order.
pub proof fn lemma_guilds_are_independent(
    registry: RegistryView,
    one: GuildId,
    op_one: GuildOp,
    other: GuildId,
    op_other: GuildOp,
)
    requires
        one != other,
    ensures
        registry.after(one, op_one).slot(other) == registry.slot(other),
        registry.after(one, op_one).sessions.contains_key(other) == registry.sessions.contains_key(
            other,
        ),
        registry.after(one, op_one).after(other, op_other) == registry.after(other, op_other).after(
            one,
            op_one,
        ),
{
    let left = registry.after(one, op_one).after(other, op_other);
    let right = registry.after(other, op_other).after(one, op_one);
    assert(registry.after(one, op_one).slot(other) == registry.slot(other));
    assert(registry.after(other, op_other).slot(one) == registry.slot(one));
    assert(left.sessions =~= right.sessions);
}

/// Of two callers who need a connection in a guild that has none, at most
/// one is told to join, and the other sees how that join went. The first is
/// told to join exactly if its user is in a channel. The second, coming
/// while that join is under way, is told to wait and changes nothing; once
/// the join has succeeded it gets the handle of that very session; once it
/// has failed the guild has no entry, and the next caller may try again.
pub proof fn lemma_one_join_per_guild(
    registry: RegistryView,
    guild: GuildId,
    first_user: UserId,
    first_candidate: Option<ChannelId>,
    second_user: UserId,
    second_candidate: Option<ChannelId>,
)
    requires
        connection_of(registry.slot(guild)) is Disconnected,
    ensures
        ({
            let first = connect_outcome(registry.slot(guild), first_candidate);
            let begun = registry.after(
                guild,
                GuildOp::EnsureConnected { user: first_user, candidate: first_candidate },
            );
            let second = connect_outcome(begun.slot(guild), second_candidate);
            let second_op = GuildOp::EnsureConnected {
                user: second_user,
                candidate: second_candidate,
            };
            let joined = begun.after(guild, GuildOp::FinishJoin { joined: true });
            let failed = begun.after(guild, GuildOp::FinishJoin { joined: false });
            &&& !(first matches Ok(ConnectStep::Join(_)) && second matches Ok(ConnectStep::Join(_)))
            &&& match first_candidate {
                Some(channel) => {
                    &&& first == Ok::<ConnectStep, VoiceErrorView>(ConnectStep::Join(channel))
                    &&& second == Ok::<ConnectStep, VoiceErrorView>(ConnectStep::Pending)
                    &&& begun.after(guild, second_op) == begun
                    &&& connect_outcome(joined.slot(guild), second_candidate) == Ok::<
                        ConnectStep,
                        VoiceErrorView,
                    >(ConnectStep::Ready(VoiceConnectionHandle { guild, channel }))
                    &&& joined.after(guild, second_op) == joined
                    &&& !failed.sessions.contains_key(guild)
                },
                None => {
                    &&& first == Err::<ConnectStep, VoiceErrorView>(
                        VoiceErrorView::NotInVoiceChannel,
                    )
                    &&& begun == registry
                },
            }
        }),
{
    let begun = registry.after(
        guild,
        GuildOp::EnsureConnected { user: first_user, candidate: first_candidate },
    );
    let second_op = GuildOp::EnsureConnected { user: second_user, candidate: second_candidate };
    let joined = begun.after(guild, GuildOp::FinishJoin { joined: true });
    if first_candidate is Some {
        assert(begun.after(guild, second_op).sessions =~= begun.sessions);
        assert(joined.after(guild, second_op).sessions =~= joined.sessions);
    } else {
        assert(begun.sessions =~= registry.sessions);
    }
}

/// A guild that holds a voice session keeps it, and its handle, through
/// every call that asks for a connection: no second join, no move to the
/// channel that the later caller is in.
pub proof fn lemma_connected_stays(
    registry: RegistryView,
    guild: GuildId,
    user: UserId,
    candidate: Option<ChannelId>,
)
    requires
        connection_of(registry.slot(guild)) is Connected,
    ensures
        registry.after(guild, GuildOp::EnsureConnected { user, candidate }) == registry,
        connect_outcome(registry.slot(guild), candidate) == Ok::<ConnectStep, VoiceErrorView>(
            ConnectStep::Ready(connection_of(registry.slot(guild))->handle),
        ),
{
    assert(registry.after(guild, GuildOp::EnsureConnected { user, candidate }).sessions
        =~= registry.sessions);
}

} // verus!
