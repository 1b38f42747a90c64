//! Decisions behind the application menus.

pub mod tray;
