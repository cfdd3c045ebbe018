//! The decisions of a Discord bot that searches Gelbooru for images: which options of a
//! slash command are accepted, which tags are refused or excluded, what Gelbooru is asked
//! for, and what the bot answers.

use vstd::prelude::*;

pub mod commands;
pub mod config;
pub mod interaction;
pub mod text;

verus! {

} // verus!
