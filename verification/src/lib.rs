//! Decisions, texts and vote counting of a Discord bot for Tempus
//! (a Team Fortress 2 jump server network) players.

pub mod commands;
pub mod eight_ball;
pub mod foreign;
pub mod text;

use vstd::prelude::*;

verus! {

/// The data that every command of the bot shares: none.
pub struct Data;

} // verus!
