//! System tray: icons, menus, the tray layout and the tray protocols'
//! bookkeeping.

pub mod menu;
pub mod menu_popup;
pub mod icons;
pub mod renderer;
pub mod xembed;
pub mod sni;
