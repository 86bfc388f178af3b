//! Commands as the dispatch shell hands them in, and what each one calls for.

use serenity::framework::standard::{Args, Delimiter};
use vstd::prelude::*;
use vstd::string::StrSliceExecFns;
use crate::error::{VoiceError, VoiceErrorView};
use crate::ids::{ChannelId, GuildId, UserId};
use crate::queue::{skip_outcome, stop_outcome, SkipOutcome, StopOutcome};
use crate::registry::{Registry, RegistryView};
use crate::session::{
    connect_outcome, leave_outcome, queue_of, ConnectStep, Connection, GuildOp, LeaveOutcome,
    SessionView, VoiceConnectionHandle,
};

verus! {

/// The voice commands.
#[derive(Clone, Copy, Debug, PartialEq, Eq, Structural)]
pub enum CommandKind {
    Join,
    Leave,
    Play,
    Skip,
    Stop,
    Mute,
    Unmute,
}

/// One command as parsed by the dispatch shell: where it was given, by
/// whom, which it is, and the text that followed its name.
#[derive(Debug, PartialEq, Eq)]
pub struct Command {
    pub guild: GuildId,
    pub user: UserId,
    pub kind: CommandKind,
    pub raw_argument: String,
}

/// What is to be resolved into a track.
#[derive(Debug, PartialEq, Eq)]
pub enum SourceQuery {
    /// The address of a piece of media.
    Url(String),
    /// Keywords to search by.
    Search(String),
}

/// The mathematical value of a [`SourceQuery`].
pub ghost enum SourceQueryView {
    Url(Seq<char>),
    Search(Seq<char>),
}

impl View for SourceQuery {
    type V = SourceQueryView;

    open spec fn view(&self) -> SourceQueryView {
        match self {
            SourceQuery::Url(text) => SourceQueryView::Url(text@),
            SourceQuery::Search(text) => SourceQueryView::Search(text@),
        }
    }
}

/// What a command calls for.
#[derive(Debug, PartialEq, Eq)]
pub enum Reaction {
    /// `Join`: carry out the step towards a connection.
    Connect(ConnectStep),
    /// `Play`: carry out the step towards a connection, resolve the source
    /// and enqueue what it gives.
    Resolve { step: ConnectStep, source: SourceQuery },
    /// `Play` came without anything to play.
    MissingArgument,
    /// `Leave`: disconnect and stop what the outcome names.
    Left(LeaveOutcome),
    /// `Skip`: stop and start what the outcome names.
    Skipped(SkipOutcome),
    /// `Stop`: stop what the outcome names.
    Stopped(StopOutcome),
    /// `Mute` and `Unmute`: set the session's mute state.
    SetMute { handle: VoiceConnectionHandle, muted: bool },
    /// The command failed; the error is to be reported to the user.
    Failed(VoiceError),
}

/// The mathematical value of a [`Reaction`].
pub ghost enum ReactionView {
    Connect(ConnectStep),
    Resolve { step: ConnectStep, source: SourceQueryView },
    MissingArgument,
    Left(LeaveOutcome),
    Skipped(SkipOutcome),
    Stopped(StopOutcome),
    SetMute { handle: VoiceConnectionHandle, muted: bool },
    Failed(VoiceErrorView),
}

impl View for Reaction {
    type V = ReactionView;

    open spec fn view(&self) -> ReactionView {
        match self {
            Reaction::Connect(step) => ReactionView::Connect(*step),
            Reaction::Resolve { step, source } => ReactionView::Resolve {
                step: *step,
                source: source@,
            },
            Reaction::MissingArgument => ReactionView::MissingArgument,
            Reaction::Left(outcome) => ReactionView::Left(*outcome),
            Reaction::Skipped(outcome) => ReactionView::Skipped(*outcome),
            Reaction::Stopped(outcome) => ReactionView::Stopped(*outcome),
            Reaction::SetMute { handle, muted } => ReactionView::SetMute {
                handle: *handle,
                muted: *muted,
            },
            Reaction::Failed(error) => ReactionView::Failed(error@),
        }
    }
}

/// Whether a text begins with `http`.
pub open spec fn has_http_prefix(text: Seq<char>) -> bool {
    text.len() >= 4 && text[0] == 'h' && text[1] == 't' && text[2] == 't' && text[3] == 'p'
}

/// What a query text asks to resolve: an address where it begins with
/// `http`, a search otherwise.
pub open spec fn source_query_of(text: Seq<char>) -> SourceQueryView {
    if has_http_prefix(text) {
        SourceQueryView::Url(text)
    } else {
        SourceQueryView::Search(text)
    }
}

/// The change that a command makes to the entry of its guild, if it makes
/// one. `argument` is the first argument of the command's text, if it has one.
pub open spec fn command_op(
    kind: CommandKind,
    user: UserId,
    argument: Option<Seq<char>>,
    candidate: Option<ChannelId>,
) -> Option<GuildOp> {
    match kind {
        CommandKind::Join => Some(GuildOp::EnsureConnected { user, candidate }),
        CommandKind::Play => if argument is Some {
            Some(GuildOp::EnsureConnected { user, candidate })
        } else {
            None
        },
        CommandKind::Leave => Some(GuildOp::Leave),
        CommandKind::Skip => Some(GuildOp::Skip),
        CommandKind::Stop => Some(GuildOp::Stop),
        CommandKind::Mute | CommandKind::Unmute => None,
    }
}

/// The registry after a command in `guild`.
pub open spec fn registry_after_command(
    registry: RegistryView,
    guild: GuildId,
    kind: CommandKind,
    user: UserId,
    argument: Option<Seq<char>>,
    candidate: Option<ChannelId>,
) -> RegistryView {
    match command_op(kind, user, argument, candidate) {
        Some(op) => registry.after(guild, op),
        None => registry,
    }
}

/// What a command calls for in a guild whose entry is `slot`.
pub open spec fn reaction_to(
    slot: Option<SessionView>,
    kind: CommandKind,
    argument: Option<Seq<char>>,
    candidate: Option<ChannelId>,
) -> ReactionView {
    match kind {
        CommandKind::Join => match connect_outcome(slot, candidate) {
            Ok(step) => ReactionView::Connect(step),
            Err(error) => ReactionView::Failed(error),
        },
        CommandKind::Play => match argument {
            None => ReactionView::MissingArgument,
            Some(text) => match connect_outcome(slot, candidate) {
                Ok(step) => ReactionView::Resolve { step, source: source_query_of(text) },
                Err(error) => ReactionView::Failed(error),
            },
        },
        CommandKind::Leave => ReactionView::Left(leave_outcome(slot)),
        CommandKind::Skip => ReactionView::Skipped(skip_outcome(queue_of(slot))),
        CommandKind::Stop => ReactionView::Stopped(stop_outcome(queue_of(slot))),
        CommandKind::Mute | CommandKind::Unmute => match slot {
            Some(SessionView { connection: Connection::Connected { handle }, .. }) => {
                ReactionView::SetMute { handle, muted: kind == CommandKind::Mute }
            },
            _ => ReactionView::Failed(VoiceErrorView::NotConnected),
        },
    }
}

/// The first argument that the command framework finds in `message` when
/// arguments are split at `delimiter`, with the quotes around it taken off;
/// `None` where the message holds no argument.
pub uninterp spec fn first_quoted_argument(message: Seq<char>, delimiter: char) -> Option<Seq<char>>;

/// An optional text taken by its view.
pub open spec fn text_view(text: Option<String>) -> Option<Seq<char>> {
    match text {
        Some(t) => Some(t@),
        None => None,
    }
}

/// Calls `Args::single_quoted::<String>` of serenity's standard framework on
/// the arguments that `Args::new` finds in `message` with the one delimiter
/// `delimiter`. Believed, not proved: what comes back is a function of the
/// message and the delimiter alone. Parsing a `String` cannot fail, so the
/// call's only error is the end of the arguments, given here as `None`.
#[verifier::external_body]
fn first_argument(message: &str, delimiter: char) -> (argument: Option<String>)
    ensures
        text_view(argument) == first_quoted_argument(message@, delimiter),
{
    Args::new(message, &[Delimiter::Single(delimiter)]).single_quoted::<String>().ok()
}

/// Whether `text` begins with `http`.
pub fn is_url(text: &str) -> (url: bool)
    ensures
        url == has_http_prefix(text@),
{
    let n = text.unicode_len();
    n >= 4 && text.get_char(0) == 'h' && text.get_char(1) == 't' && text.get_char(2) == 't'
        && text.get_char(3) == 'p'
}

/// Sorts a query text into an address or a search.
pub fn source_query(text: String) -> (source: SourceQuery)
    ensures
        source@ == source_query_of(text@),
{
    if is_url(text.as_str()) {
        SourceQuery::Url(text)
    } else {
        SourceQuery::Search(text)
    }
}

impl Registry {
    /// Carries out the first step of a command whose text was already split:
    /// `argument` is its first argument, if it has one, and `candidate` the
    /// voice channel that the user is in, if any.
    pub fn dispatch_parsed(
        &mut self,
        guild: GuildId,
        user: UserId,
        kind: CommandKind,
        argument: Option<String>,
        candidate: Option<ChannelId>,
    ) -> (reaction: Reaction)
        requires
            old(self).wf(),
        ensures
            final(self)@ == registry_after_command(
                old(self)@,
                guild,
                kind,
                user,
                text_view(argument),
                candidate,
            ),
            final(self).wf(),
            reaction@ == reaction_to(old(self)@.slot(guild), kind, text_view(argument), candidate),
    {
        match kind {
            CommandKind::Join => match self.ensure_connected(guild, user, candidate) {
                Ok(step) => Reaction::Connect(step),
                Err(error) => Reaction::Failed(error),
            },
            CommandKind::Play => match argument {
                None => Reaction::MissingArgument,
                Some(text) => match self.ensure_connected(guild, user, candidate) {
                    Ok(step) => Reaction::Resolve { step, source: source_query(text) },
                    Err(error) => Reaction::Failed(error),
                },
            },
            CommandKind::Leave => Reaction::Left(self.leave(guild)),
            CommandKind::Skip => Reaction::Skipped(self.skip(guild)),
            CommandKind::Stop => Reaction::Stopped(self.stop(guild)),
            CommandKind::Mute => self.mute_reaction(guild, true),
            CommandKind::Unmute => self.mute_reaction(guild, false),
        }
    }

    /// What `Mute` and `Unmute` call for: the session held is to be set to
    /// `muted`; without a session the command fails.
    fn mute_reaction(&self, guild: GuildId, muted: bool) -> (reaction: Reaction)
        ensures
            reaction@ == reaction_to(
                self@.slot(guild),
                if muted {
                    CommandKind::Mute
                } else {
                    CommandKind::Unmute
                },
                None,
                None,
            ),
    {
        match self.session(guild) {
            Some(session) => match session.handle() {
                Some(handle) => Reaction::SetMute { handle, muted },
                None => Reaction::Failed(VoiceError::NotConnected),
            },
            None => Reaction::Failed(VoiceError::NotConnected),
        }
    }

    /// Carries out the first step of a command. The text that followed the
    /// command's name is split at blanks, and its first argument, quotes
    /// taken off, is what `Play` is to play.
    pub fn dispatch(&mut self, command: Command, candidate: Option<ChannelId>) -> (reaction: Reaction)
        requires
            old(self).wf(),
        ensures
            final(self)@ == registry_after_command(
                old(self)@,
                command.guild,
                command.kind,
                command.user,
                first_quoted_argument(command.raw_argument@, ' '),
                candidate,
            ),
            final(self).wf(),
            reaction@ == reaction_to(
                old(self)@.slot(command.guild),
                command.kind,
                first_quoted_argument(command.raw_argument@, ' '),
                candidate,
            ),
    {
        let argument = first_argument(command.raw_argument.as_str(), ' ');
        self.dispatch_parsed(command.guild, command.user, command.kind, argument, candidate)
    }
}

} // verus!
