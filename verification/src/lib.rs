//! Core of a message-driven browser engine: a resource stage that streams
//! URL payloads, an image cache stage that coordinates prefetch, decode and
//! serve for every URL, and the content stage's reader/writer handshake with
//! layout.

pub mod content;
pub mod image;
pub mod image_cache;
pub mod resource;
pub mod state_map;
pub mod url;
