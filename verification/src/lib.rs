//! Verified core of the FediTexter chat client.

pub mod assoc;
pub mod bot;
pub mod cache;
pub mod chat;
pub mod codec;
pub mod colour;
pub mod data_url;
pub mod desktop;
pub mod frames;
pub mod identity;
pub mod ids;
pub mod img;
pub mod json;
pub mod links;
pub mod media;
pub mod mime;
pub mod number;
pub mod ordered;
pub mod p2p;
pub mod planes;
pub mod preview;
pub mod preview_job;
pub mod promises;
pub mod server;
pub mod size;
pub mod sound;
pub mod text;
pub mod time;
pub mod totp;
pub mod transfer;
pub mod video;
pub mod voice;
pub mod yuv;
