use guild_voice::command::{is_url, source_query, Command, CommandKind, Reaction, SourceQuery};
use guild_voice::error::VoiceError;
use guild_voice::ids::{ChannelId, GuildId, TrackTicket, UserId};
use guild_voice::queue::{SkipOutcome, StopOutcome};
use guild_voice::registry::Registry;
use guild_voice::session::{ConnectStep, LeaveOutcome, Phase, VoiceConnectionHandle};
use guild_voice::track::TrackEntry;

const G: GuildId = GuildId(5);
const U: UserId = UserId(6);
const C: ChannelId = ChannelId(7);

fn command(kind: CommandKind, raw: &str) -> Command {
    Command { guild: G, user: U, kind, raw_argument: raw.to_string() }
}

fn playing_registry() -> (Registry, VoiceConnectionHandle) {
    let mut registry = Registry::new();
    registry.ensure_connected(G, U, Some(C)).unwrap();
    let handle = registry.finish_join(G, Ok(())).unwrap();
    for name in ["a", "b"] {
        let entry = TrackEntry::new(name.to_string(), "x".to_string(), Some(60));
        registry.enqueue(G, Some(entry)).unwrap();
    }
    (registry, handle)
}

#[test]
fn is_url_looks_at_the_first_four_letters() {
    assert!(is_url("http://example.org/a.mp3"));
    assert!(is_url("https://example.org"));
    assert!(is_url("http"));
    assert!(is_url("httpanything"));
    assert!(!is_url("htt"));
    assert!(!is_url(""));
    assert!(!is_url("HTTP://example.org"));
    assert!(!is_url(" http://example.org"));
    assert!(!is_url("never gonna give you up"));
    assert!(!is_url("h\u{e9}tp"));
}

#[test]
fn source_query_sorts_addresses_from_searches() {
    assert_eq!(
        source_query("https://example.org/v".to_string()),
        SourceQuery::Url("https://example.org/v".to_string())
    );
    assert_eq!(
        source_query("some song".to_string()),
        SourceQuery::Search("some song".to_string())
    );
    assert_eq!(source_query(String::new()), SourceQuery::Search(String::new()));
}

#[test]
fn play_without_argument_asks_for_one() {
    let mut registry = Registry::new();
    assert_eq!(registry.dispatch(command(CommandKind::Play, ""), Some(C)), Reaction::MissingArgument);
    assert_eq!(
        registry.dispatch(command(CommandKind::Play, "   "), Some(C)),
        Reaction::MissingArgument
    );
    assert!(!registry.contains(G));
}

#[test]
fn play_takes_the_first_argument() {
    let mut registry = Registry::new();
    let reaction =
        registry.dispatch(command(CommandKind::Play, "https://example.org/v extra"), Some(C));
    assert_eq!(
        reaction,
        Reaction::Resolve {
            step: ConnectStep::Join(C),
            source: SourceQuery::Url("https://example.org/v".to_string()),
        }
    );
    assert_eq!(registry.phase(G), Phase::Connecting);
}

#[test]
fn play_takes_the_quotes_off_a_quoted_argument() {
    let (mut registry, handle) = playing_registry();
    let reaction =
        registry.dispatch(command(CommandKind::Play, "\"never gonna give\" you up"), None);
    assert_eq!(
        reaction,
        Reaction::Resolve {
            step: ConnectStep::Ready(handle),
            source: SourceQuery::Search("never gonna give".to_string()),
        }
    );
    assert_eq!(registry.queue_len(G), 2);
}

#[test]
fn play_outside_a_voice_channel_fails() {
    let mut registry = Registry::new();
    assert_eq!(
        registry.dispatch(command(CommandKind::Play, "song"), None),
        Reaction::Failed(VoiceError::NotInVoiceChannel)
    );
    assert!(!registry.contains(G));
}

#[test]
fn play_during_a_join_waits() {
    let mut registry = Registry::new();
    registry.ensure_connected(G, UserId(9), Some(ChannelId(8))).unwrap();
    assert_eq!(
        registry.dispatch(command(CommandKind::Play, "song"), Some(C)),
        Reaction::Resolve {
            step: ConnectStep::Pending,
            source: SourceQuery::Search("song".to_string()),
        }
    );
}

#[test]
fn join_reacts_with_the_connection_step() {
    let mut registry = Registry::new();
    assert_eq!(
        registry.dispatch(command(CommandKind::Join, ""), None),
        Reaction::Failed(VoiceError::NotInVoiceChannel)
    );
    assert_eq!(
        registry.dispatch(command(CommandKind::Join, "ignored"), Some(C)),
        Reaction::Connect(ConnectStep::Join(C))
    );
    assert_eq!(
        registry.dispatch(command(CommandKind::Join, ""), Some(C)),
        Reaction::Connect(ConnectStep::Pending)
    );
    let handle = registry.finish_join(G, Ok(())).unwrap();
    assert_eq!(
        registry.dispatch(command(CommandKind::Join, ""), Some(ChannelId(99))),
        Reaction::Connect(ConnectStep::Ready(handle))
    );
}

#[test]
fn skip_stop_and_leave_commands() {
    let (mut registry, handle) = playing_registry();
    assert_eq!(
        registry.dispatch(command(CommandKind::Skip, ""), None),
        Reaction::Skipped(SkipOutcome::Advanced {
            skipped: TrackTicket(0),
            now_playing: TrackTicket(1),
        })
    );
    assert_eq!(
        registry.dispatch(command(CommandKind::Stop, ""), None),
        Reaction::Stopped(StopOutcome::Stopped { was_playing: TrackTicket(1), cleared: 1 })
    );
    assert_eq!(
        registry.dispatch(command(CommandKind::Skip, ""), None),
        Reaction::Skipped(SkipOutcome::NothingToSkip)
    );
    assert_eq!(
        registry.dispatch(command(CommandKind::Leave, ""), None),
        Reaction::Left(LeaveOutcome { handle: Some(handle), was_playing: None, cleared: 0 })
    );
    assert!(!registry.contains(G));
    assert_eq!(
        registry.dispatch(command(CommandKind::Stop, ""), None),
        Reaction::Stopped(StopOutcome::NothingToStop)
    );
}

#[test]
fn mute_and_unmute_need_a_session() {
    let mut registry = Registry::new();
    assert_eq!(
        registry.dispatch(command(CommandKind::Mute, ""), Some(C)),
        Reaction::Failed(VoiceError::NotConnected)
    );
    assert!(!registry.contains(G));
    let (mut registry, handle) = playing_registry();
    assert_eq!(
        registry.dispatch(command(CommandKind::Mute, ""), None),
        Reaction::SetMute { handle, muted: true }
    );
    assert_eq!(
        registry.dispatch(command(CommandKind::Unmute, ""), None),
        Reaction::SetMute { handle, muted: false }
    );
    assert_eq!(registry.queue_len(G), 2);
}

#[test]
fn dispatch_parsed_takes_the_argument_as_given() {
    let mut registry = Registry::new();
    assert_eq!(
        registry.dispatch_parsed(G, U, CommandKind::Play, None, Some(C)),
        Reaction::MissingArgument
    );
    assert_eq!(
        registry.dispatch_parsed(G, U, CommandKind::Play, Some("\"a b\"".to_string()), Some(C)),
        Reaction::Resolve {
            step: ConnectStep::Join(C),
            source: SourceQuery::Search("\"a b\"".to_string()),
        }
    );
}
