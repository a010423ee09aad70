//! Logic of a screen-privacy overlay: what its page shows, which scripts it is
//! driven by, where its files live, and how its state answers each event.

pub mod autostart;
pub mod base64;
pub mod config;
pub mod cursor;
pub mod json;
pub mod overlay;
pub mod places;
pub mod state;
pub mod tasks;
pub mod text;
pub mod windows;
