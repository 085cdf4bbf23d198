//! What holds of names, links, files, sound and pictures.

pub mod codes;
pub mod links;
pub mod names;
pub mod playback;
pub mod transfers;
