//! Custom commands that guilds define: triggers, comparisons and actions,
//! queued per guild.
use std::collections::HashMap;
use serenity::model::event::Event;
use vstd::prelude::*;

verus! {

/// Declares `serenity::model::event::Event`, a gateway event, so that it
/// can stand in the library's signatures; nothing is known of what it
/// holds.
#[verifier::external_type_specification]
#[verifier::external_body]
pub struct ExEvent(Event);

/// What can start a custom command.
#[derive(Clone, Copy, Debug, PartialEq, Eq, Structural)]
pub enum Events {
    MemberJoin,
    MemberLeave,
    MessageSent,
}

/// How a custom command compares a value.
#[derive(Clone, Copy, Debug, PartialEq, Eq, Structural)]
pub enum Comparison {
    Equal,
    NotEqual,
    GreaterThan,
    LessThan,
    Includes,
}

/// What a custom command can do.
#[derive(Clone, Copy, Debug, PartialEq, Eq, Structural)]
pub enum Actions {
    SendMessage,
}

/// A custom command waiting in a guild's queue.
#[derive(Clone, Copy, Debug, PartialEq, Eq, Structural)]
pub struct QueueEntry;

impl QueueEntry {
    /// Advances the queued commands on a gateway event; no command reacts
    /// to any event yet, so nothing happens.
    pub fn step(event: Event) {
    }
}

/// The queued custom commands of each guild, keyed by guild id.
#[derive(Debug)]
pub struct CommandQueue {
    pub queues: HashMap<u64, Vec<QueueEntry>>,
}

} // verus!
