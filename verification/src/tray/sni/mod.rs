//! StatusNotifierItem tray items: how a registered service names its
//! bus and object, and what the tray keeps of each item.

pub mod host;
pub mod item;
