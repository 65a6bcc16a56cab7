//! Verified core of a Discord community bot: the scoring ledger and its
//! database operations, reaction and message events, trades and the shop,
//! and the text that the bot replies with.

pub mod text;
pub mod config;
pub mod emoji;
pub mod ledger;
pub mod events;
pub mod commands;
pub mod display;
pub mod attachments;
pub mod runescape;
pub mod status;
pub mod bot_types;
pub mod replies;
