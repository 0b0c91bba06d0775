//! Do Not Disturb: the panel's own DND flag, kept in step with dunst's
//! "paused" state when `dunstctl` is there.
//!
//! Running `dunstctl` is the caller's part: the module says when to ask
//! dunst to pause or resume and takes what `dunstctl is-paused` printed.

use vstd::prelude::*;
use crate::text::{decode_lossy, trim_spec, trimmed_equals, utf8_lossy};

verus! {

/// DND state.
#[derive(Debug, Clone, Copy, PartialEq, Eq, Structural)]
pub struct DndState {
    pub enabled: bool,
    pub dunst_available: bool,
}

impl Default for DndState {
    fn default() -> (s: Self)
        ensures
            !s.enabled,
            !s.dunst_available,
    {
        DndState { enabled: false, dunst_available: false }
    }
}

/// Whether what `dunstctl is-paused` printed says that notifications are
/// paused: the text, trimmed, is `true`.
pub open spec fn paused_text(text: Seq<char>) -> bool {
    trim_spec(text) == "true"@
}

/// Reads the text that `dunstctl is-paused` printed.
pub fn paused_from_text(text: &str) -> (paused: bool)
    ensures
        paused == paused_text(text@),
{
    trimmed_equals(text, "true")
}

/// Do Not Disturb module.
#[derive(Debug, Clone, Copy)]
pub struct DndModule {
    state: DndState,
}

impl DndModule {
    /// The module's state.
    pub closed spec fn view_state(&self) -> DndState {
        self.state
    }

    /// A module with DND off and no dunst.
    pub fn new() -> (m: Self)
        ensures
            m.view_state() == (DndState { enabled: false, dunst_available: false }),
    {
        DndModule { state: DndState::default() }
    }

    /// Takes in the results of probing dunst: whether `dunstctl is-paused`
    /// ran and succeeded (`dunst_available`), and the standard output of
    /// the second run that asks for the current state, when it succeeded.
    /// With dunst there, DND follows what dunst reports; without it, the
    /// local flag stays as it was.
    pub fn init(&mut self, dunst_available: bool, paused_output: Option<&[u8]>)
        ensures
            final(self).view_state().dunst_available == dunst_available,
            final(self).view_state().enabled == match paused_output {
                Some(out) if dunst_available => paused_text(utf8_lossy(out@)),
                _ => old(self).view_state().enabled,
            },
    {
        self.state.dunst_available = dunst_available;
        if dunst_available {
            if let Some(out) = paused_output {
                let text = decode_lossy(out);
                self.state.enabled = paused_from_text(text.as_str());
            }
        }
    }

    /// Flips DND. Returns the paused state to hand to `dunstctl
    /// set-paused` when dunst is there; the local flag flips whatever
    /// dunst answers.
    pub fn toggle(&mut self) -> (request: Option<bool>)
        ensures
            (final(self).view_state(), request) == toggle_spec(old(self).view_state()),
    {
        let new_state = !self.state.enabled;
        self.state.enabled = new_state;
        if self.state.dunst_available {
            Some(new_state)
        } else {
            None
        }
    }

    /// Turns DND on. When that changes the flag and dunst is there, returns
    /// the paused state to hand to `dunstctl set-paused`.
    pub fn enable(&mut self) -> (request: Option<bool>)
        ensures
            (final(self).view_state(), request) == set_spec(old(self).view_state(), true),
    {
        if !self.state.enabled {
            self.state.enabled = true;
            if self.state.dunst_available {
                return Some(true);
            }
        }
        None
    }

    /// Turns DND off. When that changes the flag and dunst is there,
    /// returns the paused state to hand to `dunstctl set-paused`.
    pub fn disable(&mut self) -> (request: Option<bool>)
        ensures
            (final(self).view_state(), request) == set_spec(old(self).view_state(), false),
    {
        if self.state.enabled {
            self.state.enabled = false;
            if self.state.dunst_available {
                return Some(false);
            }
        }
        None
    }

    /// The current state.
    pub fn state(&self) -> (s: &DndState)
        ensures
            *s == self.view_state(),
    {
        &self.state
    }

    /// Whether DND is on.
    pub fn is_enabled(&self) -> (b: bool)
        ensures
            b == self.view_state().enabled,
    {
        self.state.enabled
    }
}

impl Default for DndModule {
    fn default() -> (m: Self)
        ensures
            m.view_state() == (DndState { enabled: false, dunst_available: false }),
    {
        DndModule::new()
    }
}

/// Toggling: the flag flips; dunst, when there, is told the new state.
pub open spec fn toggle_spec(s: DndState) -> (DndState, Option<bool>) {
    let next = DndState { enabled: !s.enabled, dunst_available: s.dunst_available };
    (next, if s.dunst_available { Some(!s.enabled) } else { None })
}

/// Setting the flag to `on`: dunst, when there, is told only of a change.
pub open spec fn set_spec(s: DndState, on: bool) -> (DndState, Option<bool>) {
    let next = DndState { enabled: on, dunst_available: s.dunst_available };
    (next, if s.enabled != on && s.dunst_available { Some(on) } else { None })
}

/// Toggling twice gives back the state, and the second toggle tells
/// dunst the starting state again.
pub proof fn law_toggle_twice_restores(s: DndState)
    ensures
        toggle_spec(toggle_spec(s).0).0 == s,
        s.dunst_available ==> toggle_spec(toggle_spec(s).0).1 == Some(s.enabled),
{
}

/// Enabling or disabling a second time changes nothing and asks nothing
/// of dunst.
pub proof fn law_set_idempotent(s: DndState, on: bool)
    ensures
        set_spec(set_spec(s, on).0, on) == (set_spec(s, on).0, None::<bool>),
        set_spec(s, on).0.enabled == on,
{
}

/// A toggle is the same as setting the flag to its opposite.
pub proof fn law_toggle_is_set_opposite(s: DndState)
    ensures
        toggle_spec(s) == set_spec(s, !s.enabled),
{
}

} // verus!
