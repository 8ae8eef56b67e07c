//! Ether: the logic of a Discord bot for role-play communities: warnings,
//! profiles that members post as, a character registry with review, link
//! traversal, and the settings and caches behind them.
use vstd::prelude::*;

pub mod cache;
pub mod custom_commands;
pub mod embeds;
pub mod hooks;
pub mod link_traversal;
pub mod multi_key_map;
pub mod profile;
pub mod ruin;
pub mod stats;
pub mod structures;
pub mod text;
pub mod warnings;

verus! {

} // verus!
