//! Core logic of a desktop client shell: shortcut parsing and dispatch,
//! window, menu and tray decisions, and the download flow, each stated
//! with a contract and proved.

pub mod text;
pub mod content_type;
pub mod shortcut;
pub mod bindings;
pub mod window;
pub mod http;
pub mod download;
pub mod session;
pub mod blob;
pub mod greeting;
