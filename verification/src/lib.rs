//! Decision logic of a Discord bot that relays messages of watched channels
//! through ChatGPT into target channels.

pub mod commands;
pub mod config;
pub mod database;
pub mod events;
pub mod handler;
pub mod ids;
pub mod protocol;
pub mod text;
