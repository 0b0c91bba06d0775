//! Quick settings panel for the gar desktop: the state machines, layout
//! rules, parsers and formatters behind the panel, the tray and the
//! control client.

pub mod panel;
pub mod text;
pub mod ipc;
pub mod config;
pub mod daemon;
pub mod tray;
pub mod host;
