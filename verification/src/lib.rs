//! Tray-driven quick notes: where a note is written, and how the tray and its
//! windows react to events.

pub mod controller;
pub mod menu;
pub mod note;
pub mod text;
pub mod window;
