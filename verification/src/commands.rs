//! Decision cores of the application's command layer.

pub mod audio;
pub mod license;
pub mod remote;
pub mod settings;
