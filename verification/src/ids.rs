//! Identifiers handed in from the chat platform, and the tickets that this
//! library gives to queued tracks.

use vstd::prelude::*;

verus! {

/// A chat server. Supplied from outside, never made up here.
#[derive(Clone, Copy, Debug, PartialEq, Eq, Hash, Structural)]
pub struct GuildId(pub u64);

/// A voice channel of a guild.
#[derive(Clone, Copy, Debug, PartialEq, Eq, Hash, Structural)]
pub struct ChannelId(pub u64);

/// A user of the chat platform.
#[derive(Clone, Copy, Debug, PartialEq, Eq, Hash, Structural)]
pub struct UserId(pub u64);

/// The number under which a queue holds one track. A queue never gives the
/// same ticket twice, so a ticket tells which track an event is about.
#[derive(Clone, Copy, Debug, PartialEq, Eq, Hash, Structural)]
pub struct TrackTicket(pub u64);

} // verus!
