//! The slash commands of the bot, all guild only.

pub mod adjust;
pub mod list;
pub mod listen;
pub mod stop;
