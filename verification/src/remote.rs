//! Remote transcription: sharing a loaded model over the local network
//! and consuming a model shared by another instance.

pub mod client;
pub mod codec;
pub mod http;
pub mod lifecycle;
pub mod server;
pub mod settings;
pub mod transcription;
