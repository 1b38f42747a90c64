//! Audio capture side: limits that recordings must respect.

pub mod recorder;
