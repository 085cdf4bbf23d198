//! What the window of the client shows.

pub mod area;
pub mod body;
pub mod forms;
pub mod guilds;
pub mod layers;
pub mod new_conv;
pub mod parts;
pub mod settings;
pub mod sidebar;
pub mod stickers;
pub mod voice;
