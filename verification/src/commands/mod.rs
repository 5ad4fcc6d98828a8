//! The decisions behind the bot's commands.

pub mod climate;
pub mod general;
