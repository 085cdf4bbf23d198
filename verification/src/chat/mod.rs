//! The chat client: its state, the messages that drive it and the actions it asks for.

pub mod action;
pub mod answers;
pub mod auth;
pub mod avatars;
pub mod conv;
pub mod files;
pub mod guild_admin;
pub mod guilds;
pub mod laws;
pub mod lists;
pub mod msg;
pub mod names;
pub mod new_conv;
pub mod people;
pub mod promises;
pub mod requests;
pub mod socket;
pub mod start;
pub mod state;
pub mod stickers;
pub mod types;
pub mod update;
pub mod view;
pub mod ws;
