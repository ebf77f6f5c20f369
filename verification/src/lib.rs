//! Signed pin requests relayed through a chat room.
//!
//! A participant asks for a content-addressed resource to be pinned by
//! putting a signed message into a Matrix room; the others read the room,
//! check who asked, and act. This library holds the rules of that
//! exchange: the message and its wire form, what a verifier's report makes
//! of a message, the registry of configured channels, and the Matrix
//! channel with the engine that turns a room's history into batches of
//! messages.
//!
//! The library sends nothing and reads no clock. It says which request is
//! next, and takes the bytes that came back: the caller does the rest.

pub mod address;
pub mod clock;
pub mod config;
pub mod http;
pub mod json;
pub mod matrix;
pub mod message;
pub mod text;
pub mod verification;
