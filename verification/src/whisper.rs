//! Model catalogue and the transcriber bookkeeping around it.

pub mod cache;
pub mod manager;
