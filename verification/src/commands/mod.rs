//! The slash commands of the bot.

pub mod booru;
pub mod help;
