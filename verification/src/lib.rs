//! Verified core of a Moonlight game-streaming client and its web front end:
//! pairing, host responses, stream configuration and the byte formats that
//! travel between browser, web server, streamer and host.

pub mod pair;
pub mod text;
pub mod hex;
pub mod crypto;
pub mod network;
pub mod xml;
pub mod stream;
pub mod launch;
pub mod pairing;
pub mod host;
pub mod buffer;
pub mod annexb;
pub mod h264;
pub mod video;
pub mod config;
pub mod ipc;
pub mod api_bindings;
pub mod auth;
pub mod codec;
pub mod input;
pub mod instance;
pub mod data;
pub mod signaling;
