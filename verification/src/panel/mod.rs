//! Quick settings panel modules.

use vstd::prelude::*;

pub mod eap;
pub mod network;
pub mod bluetooth;
pub mod popup;
pub mod dnd;
pub mod battery;
pub mod power;
pub mod volume;
pub mod input;

verus! {

/// A module of the panel.
pub trait PanelModule {
    /// Module name for configuration
    fn name(&self) -> &'static str;

    /// Update module state
    fn update(&mut self);
}

} // verus!
