//! Volume: the PulseAudio connection's progress, and the mute state of
//! the default sink. The volume level itself is floating point and stays
//! with the caller, as do the PulseAudio calls.

use vstd::prelude::*;

verus! {

/// The states of a PulseAudio context.
#[derive(Debug, Clone, Copy, PartialEq, Eq, Structural)]
pub enum ContextState {
    Unconnected,
    Connecting,
    Authorizing,
    SettingName,
    Ready,
    Failed,
    Terminated,
}

/// What waiting for the connection does next in a context state.
#[derive(Debug, Clone, Copy, PartialEq, Eq, Structural)]
pub enum ConnectStep {
    /// Run the main loop once more.
    Wait,
    /// Connected.
    Ready,
    /// The connection failed.
    Failed,
}

/// The step after seeing a context state: ready, failed (failed or
/// terminated), or wait.
pub fn connect_step(state: ContextState) -> (s: ConnectStep)
    ensures
        s == match state {
            ContextState::Ready => ConnectStep::Ready,
            ContextState::Failed | ContextState::Terminated => ConnectStep::Failed,
            _ => ConnectStep::Wait,
        },
{
    match state {
        ContextState::Ready => ConnectStep::Ready,
        ContextState::Failed | ContextState::Terminated => ConnectStep::Failed,
        _ => ConnectStep::Wait,
    }
}

/// The sink side of the volume state.
#[derive(Debug, Clone)]
pub struct SinkState {
    /// Whether muted
    pub muted: bool,
    /// Sink name
    pub sink_name: String,
    /// Sink description
    pub sink_description: String,
}

impl Default for SinkState {
    fn default() -> (s: Self)
        ensures
            !s.muted,
            s.sink_name@.len() == 0,
            s.sink_description@.len() == 0,
    {
        SinkState { muted: false, sink_name: String::new(), sink_description: String::new() }
    }
}

impl SinkState {
    /// Whether there is a default sink to act on: connected, with a sink
    /// name.
    pub fn can_act(&self, connected: bool) -> (b: bool)
        ensures
            b == (connected && self.sink_name@.len() > 0),
    {
        connected && self.sink_name.as_str().unicode_len() > 0
    }

    /// The mute state to ask PulseAudio for when toggling: the opposite of
    /// the current one, when there is a sink to act on.
    pub fn mute_request(&self, connected: bool) -> (r: Option<bool>)
        ensures
            r == if connected && self.sink_name@.len() > 0 {
                Some(!self.muted)
            } else {
                None
            },
    {
        if self.can_act(connected) {
            Some(!self.muted)
        } else {
            None
        }
    }

    /// Records a mute toggle that was sent.
    pub fn toggled_mute(&mut self)
        ensures
            final(self).muted == !old(self).muted,
            final(self).sink_name@ == old(self).sink_name@,
            final(self).sink_description@ == old(self).sink_description@,
    {
        self.muted = !self.muted;
    }

    /// Takes in the default sink's name from the server information.
    pub fn set_default_sink(&mut self, name: Option<String>)
        ensures
            final(self).sink_name@ == match name {
                Some(n) => n@,
                None => old(self).sink_name@,
            },
            final(self).muted == old(self).muted,
            final(self).sink_description@ == old(self).sink_description@,
    {
        if let Some(n) = name {
            self.sink_name = n;
        }
    }

    /// Takes in the sink's details: its mute flag, and its description
    /// when it has one.
    pub fn set_sink_info(&mut self, muted: bool, description: Option<String>)
        ensures
            final(self).muted == muted,
            final(self).sink_description@ == match description {
                Some(d) => d@,
                None => old(self).sink_description@,
            },
            final(self).sink_name@ == old(self).sink_name@,
    {
        self.muted = muted;
        if let Some(d) = description {
            self.sink_description = d;
        }
    }
}

} // verus!
