//! What the client promises its user, message by message.

pub mod answers;
pub mod files;
pub mod guilds;
pub mod messages;
pub mod panels;
pub mod people;
pub mod requests;
pub mod session;
pub mod stickers;
pub mod talk_view;
