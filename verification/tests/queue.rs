use guild_voice::ids::TrackTicket;
use guild_voice::queue::{Enqueued, SkipOutcome, StopOutcome, TrackEndOutcome, TrackQueue};
use guild_voice::track::{QueuedTrack, TrackEntry};

fn entry(title: &str) -> TrackEntry {
    TrackEntry::new(title.to_string(), "someone".to_string(), Some(180))
}

fn titles(queue: &TrackQueue) -> Vec<String> {
    let mut out = Vec::new();
    let mut i = 0;
    while let Some(track) = queue.get(i) {
        out.push(track.entry.title.clone());
        i += 1;
    }
    out
}

#[test]
fn new_queue_is_empty_and_idle() {
    let queue = TrackQueue::new();
    assert_eq!(queue.len(), 0);
    assert!(queue.is_empty());
    assert!(!queue.is_playing());
    assert!(queue.current().is_none());
    assert!(queue.get(0).is_none());
    assert!(queue.has_room());
    assert_eq!(queue.next_ticket(), TrackTicket(0));
}

#[test]
fn track_entry_keeps_its_metadata() {
    let e = TrackEntry::new("Title".to_string(), "Artist".to_string(), None);
    assert_eq!(e.title, "Title");
    assert_eq!(e.artist, "Artist");
    assert_eq!(e.duration_secs, None);
    let copy = e.clone();
    assert_eq!(copy, e);
    let queued = QueuedTrack { ticket: TrackTicket(4), entry: e };
    assert_eq!(queued.clone(), queued);
}

#[test]
fn enqueue_on_empty_queue_starts_playback_at_position_one() {
    let mut queue = TrackQueue::new();
    let done = queue.enqueue(entry("a"));
    assert_eq!(done, Enqueued { position: 1, ticket: TrackTicket(0), start_playback: true });
    assert!(queue.is_playing());
    assert_eq!(queue.len(), 1);
    let head = queue.current().unwrap();
    assert_eq!(head.ticket, TrackTicket(0));
    assert_eq!(head.entry, entry("a"));
}

#[test]
fn enqueue_while_playing_returns_length_after_insert() {
    let mut queue = TrackQueue::new();
    queue.enqueue(entry("a"));
    let second = queue.enqueue(entry("b"));
    assert_eq!(second, Enqueued { position: 2, ticket: TrackTicket(1), start_playback: false });
    let third = queue.enqueue(entry("c"));
    assert_eq!(third, Enqueued { position: 3, ticket: TrackTicket(2), start_playback: false });
    assert_eq!(third.position, queue.len());
    assert_eq!(queue.current().unwrap().entry.title, "a");
}

#[test]
fn enqueues_keep_the_order_of_the_calls() {
    let mut queue = TrackQueue::new();
    for name in ["one", "two", "three", "four", "two"] {
        queue.enqueue(entry(name));
    }
    assert_eq!(queue.len(), 5);
    assert_eq!(titles(&queue), vec!["one", "two", "three", "four", "two"]);
    for i in 0..5 {
        assert_eq!(queue.get(i).unwrap().ticket, TrackTicket(i as u64));
    }
    assert!(queue.get(5).is_none());
}

#[test]
fn skip_with_two_entries_promotes_the_second() {
    let mut queue = TrackQueue::new();
    queue.enqueue(entry("a"));
    queue.enqueue(entry("b"));
    let outcome = queue.skip();
    assert_eq!(
        outcome,
        SkipOutcome::Advanced { skipped: TrackTicket(0), now_playing: TrackTicket(1) }
    );
    assert_eq!(titles(&queue), vec!["b"]);
    assert!(queue.is_playing());
    assert_eq!(queue.current().unwrap().ticket, TrackTicket(1));
}

#[test]
fn skip_on_single_entry_leaves_queue_empty() {
    let mut queue = TrackQueue::new();
    queue.enqueue(entry("a"));
    assert_eq!(queue.skip(), SkipOutcome::Stopped { skipped: TrackTicket(0) });
    assert!(queue.is_empty());
    assert!(!queue.is_playing());
}

#[test]
fn skip_on_empty_queue_changes_nothing() {
    let mut queue = TrackQueue::new();
    assert_eq!(queue.skip(), SkipOutcome::NothingToSkip);
    assert_eq!(queue.skip(), SkipOutcome::NothingToSkip);
    assert!(queue.is_empty());
    assert_eq!(queue.next_ticket(), TrackTicket(0));
}

#[test]
fn stop_clears_the_whole_queue() {
    let mut queue = TrackQueue::new();
    queue.enqueue(entry("a"));
    queue.enqueue(entry("b"));
    queue.enqueue(entry("c"));
    queue.skip();
    let outcome = queue.stop();
    assert_eq!(outcome, StopOutcome::Stopped { was_playing: TrackTicket(1), cleared: 2 });
    assert!(queue.is_empty());
    assert!(!queue.is_playing());
    assert_eq!(queue.stop(), StopOutcome::NothingToStop);
}

#[test]
fn stop_on_empty_queue_reports_nothing_to_stop() {
    let mut queue = TrackQueue::new();
    assert_eq!(queue.stop(), StopOutcome::NothingToStop);
    assert!(queue.is_empty());
}

#[test]
fn tickets_are_not_given_again_after_stop() {
    let mut queue = TrackQueue::new();
    queue.enqueue(entry("a"));
    queue.enqueue(entry("b"));
    queue.stop();
    let done = queue.enqueue(entry("c"));
    assert_eq!(done, Enqueued { position: 1, ticket: TrackTicket(2), start_playback: true });
}

#[test]
fn track_end_of_head_advances() {
    let mut queue = TrackQueue::new();
    queue.enqueue(entry("a"));
    queue.enqueue(entry("b"));
    let outcome = queue.track_ended(TrackTicket(0));
    assert_eq!(outcome, TrackEndOutcome::Advanced { now_playing: TrackTicket(1) });
    assert_eq!(titles(&queue), vec!["b"]);
}

#[test]
fn track_end_of_last_track_goes_idle() {
    let mut queue = TrackQueue::new();
    queue.enqueue(entry("a"));
    assert_eq!(queue.track_ended(TrackTicket(0)), TrackEndOutcome::Idle);
    assert!(queue.is_empty());
    assert!(!queue.is_playing());
}

#[test]
fn track_end_of_skipped_track_is_ignored() {
    let mut queue = TrackQueue::new();
    queue.enqueue(entry("a"));
    queue.enqueue(entry("b"));
    queue.enqueue(entry("c"));
    queue.skip();
    assert_eq!(queue.track_ended(TrackTicket(0)), TrackEndOutcome::Ignored);
    assert_eq!(titles(&queue), vec!["b", "c"]);
}

#[test]
fn track_end_of_waiting_or_unknown_track_is_ignored() {
    let mut queue = TrackQueue::new();
    assert_eq!(queue.track_ended(TrackTicket(0)), TrackEndOutcome::Ignored);
    queue.enqueue(entry("a"));
    queue.enqueue(entry("b"));
    assert_eq!(queue.track_ended(TrackTicket(1)), TrackEndOutcome::Ignored);
    assert_eq!(queue.track_ended(TrackTicket(9)), TrackEndOutcome::Ignored);
    assert_eq!(queue.len(), 2);
}

#[test]
fn queue_starting_at_a_ticket_goes_on_from_it() {
    let mut queue = TrackQueue::starting_at(40);
    assert!(queue.is_empty());
    assert_eq!(queue.next_ticket(), TrackTicket(40));
    let done = queue.enqueue(entry("a"));
    assert_eq!(done, Enqueued { position: 1, ticket: TrackTicket(40), start_playback: true });
    assert_eq!(queue.next_ticket(), TrackTicket(41));
}

#[test]
fn queue_out_of_tickets_has_no_room() {
    let mut queue = TrackQueue::starting_at(u64::MAX - 1);
    assert!(queue.has_room());
    let done = queue.enqueue(entry("last"));
    assert_eq!(done.ticket, TrackTicket(u64::MAX - 1));
    assert!(!queue.has_room());
}
