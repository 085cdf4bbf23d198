//! The desktop client: its state, what happens to it, and what its window shows.

pub mod events;
pub mod lists;
pub mod promises;
pub mod replies;
pub mod requests;
pub mod settings;
pub mod shown;
pub mod socket;
pub mod state;
pub mod ui;
pub mod window;
