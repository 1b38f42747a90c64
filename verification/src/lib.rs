//! Network sharing subsystem of a speech-transcription application.
//!
//! One running instance (the server) exposes its currently loaded
//! recognition model over the local network; other instances (clients)
//! send audio to it instead of running local inference.  This crate
//! holds the verified core of that subsystem: the wire-protocol
//! decisions, the server lifecycle state machine, the persisted
//! registry of known remote servers, the client timeout policy, and
//! the model bookkeeping around them.

pub mod audio;
pub mod commands;
pub mod menu;
pub mod remote;
pub mod whisper;
pub mod text;
