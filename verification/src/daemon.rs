//! The daemon's decisions: what each IPC command does to the panel, the
//! debounce of toggles right after a hide, the shared visibility flag, and
//! the start-up check for a daemon that is already running.
//!
//! The event loop performs the actions these functions return and reports
//! back what the panel did.

use vstd::prelude::*;
use crate::ipc::{Command, runtime_dir_or_tmp};
use crate::host;
use crate::text::{
    concat_str, dec_int, i64_to_string, join_path, join_path_spec, parse_i32_spec,
    parse_i32_trimmed, trim_spec,
};

verus! {

/// A toggle that would show the panel within this many milliseconds of a
/// hide is ignored.
pub const TOGGLE_DEBOUNCE_MS: u64 = 300;

/// What the daemon keeps between commands.
#[derive(Debug, Clone, Copy, PartialEq, Eq, Structural)]
pub struct DaemonCore {
    /// Whether the main loop keeps running
    pub running: bool,
    /// The visibility flag shared with the IPC server
    pub visibility: bool,
    /// When the panel was last hidden (milliseconds on a monotonic clock)
    pub last_hide_ms: Option<u64>,
}

/// What the event loop does to the panel for a command.
#[derive(Debug, Clone, Copy, PartialEq, Eq, Structural)]
pub enum PanelAction {
    /// Nothing
    Nothing,
    /// Show the panel near (x, y), then render it
    ShowAndRender { x: i32, y: i32 },
    /// Hide the panel
    Hide,
    /// Reload the configuration
    ReloadConfig,
    /// Log the daemon status
    ReportStatus,
}

/// The outcome of a command: the action, and whether the visibility flag
/// is to be set from the panel once the action is done.
#[derive(Debug, Clone, Copy, PartialEq, Eq, Structural)]
pub struct CommandOutcome {
    pub action: PanelAction,
    pub sync_visibility: bool,
}

/// Milliseconds from `since` to `now`; zero when the clock reads earlier.
pub open spec fn elapsed_ms(now: u64, since: u64) -> int {
    if now >= since {
        now - since
    } else {
        0
    }
}

/// Whether a toggle at `now` falls within the debounce window of the last
/// hide.
pub open spec fn debounced(core: DaemonCore, now: u64) -> bool {
    match core.last_hide_ms {
        Some(h) => elapsed_ms(now, h) < TOGGLE_DEBOUNCE_MS,
        None => false,
    }
}

/// What a command does. `panel` is `None` when there is no panel, and
/// otherwise whether the panel is visible; `now` is the monotonic clock in
/// milliseconds.
pub open spec fn step_spec(core: DaemonCore, cmd: Command, panel: Option<bool>, now: u64) -> (
    DaemonCore,
    CommandOutcome,
) {
    match cmd {
        Command::Show { x, y } => {
            let action = match panel {
                Some(false) => PanelAction::ShowAndRender { x, y },
                _ => PanelAction::Nothing,
            };
            (core, CommandOutcome { action, sync_visibility: true })
        },
        Command::Hide => match panel {
            Some(true) => (
                DaemonCore { last_hide_ms: Some(now), ..core },
                CommandOutcome { action: PanelAction::Hide, sync_visibility: true },
            ),
            _ => (core, CommandOutcome { action: PanelAction::Nothing, sync_visibility: true }),
        },
        Command::Toggle { x, y } => match panel {
            None => (core, CommandOutcome { action: PanelAction::Nothing, sync_visibility: false }),
            Some(true) => (
                DaemonCore { last_hide_ms: Some(now), visibility: false, ..core },
                CommandOutcome { action: PanelAction::Hide, sync_visibility: false },
            ),
            Some(false) => if debounced(core, now) {
                (core, CommandOutcome { action: PanelAction::Nothing, sync_visibility: false })
            } else {
                (
                    DaemonCore { visibility: true, ..core },
                    CommandOutcome {
                        action: PanelAction::ShowAndRender { x, y },
                        sync_visibility: false,
                    },
                )
            },
        },
        Command::Reload => (
            core,
            CommandOutcome { action: PanelAction::ReloadConfig, sync_visibility: false },
        ),
        Command::Status => (
            core,
            CommandOutcome { action: PanelAction::ReportStatus, sync_visibility: true },
        ),
        Command::Quit => (
            DaemonCore { running: false, ..core },
            CommandOutcome { action: PanelAction::Nothing, sync_visibility: false },
        ),
    }
}

/// The visibility flag after a panel-event round: cleared, with the hide
/// time recorded, when the events closed a visible panel.
pub open spec fn after_events_spec(core: DaemonCore, was_visible: bool, is_visible: bool, now: u64) -> DaemonCore {
    if was_visible && !is_visible {
        DaemonCore { visibility: false, last_hide_ms: Some(now), ..core }
    } else {
        core
    }
}

impl DaemonCore {
    /// A running daemon with a hidden panel that was never hidden before.
    pub fn new() -> (c: Self)
        ensures
            c == (DaemonCore { running: true, visibility: false, last_hide_ms: None }),
    {
        DaemonCore { running: true, visibility: false, last_hide_ms: None }
    }

    /// Decides what `cmd` does, given the panel's visibility (`None` when
    /// there is no panel) and the clock.
    pub fn handle_command(&mut self, cmd: Command, panel: Option<bool>, now_ms: u64) -> (out: CommandOutcome)
        ensures
            (*final(self), out) == step_spec(*old(self), cmd, panel, now_ms),
    {
        match cmd {
            Command::Show { x, y } => {
                let action = match panel {
                    Some(false) => PanelAction::ShowAndRender { x, y },
                    _ => PanelAction::Nothing,
                };
                CommandOutcome { action, sync_visibility: true }
            },
            Command::Hide => match panel {
                Some(true) => {
                    self.last_hide_ms = Some(now_ms);
                    CommandOutcome { action: PanelAction::Hide, sync_visibility: true }
                },
                _ => CommandOutcome { action: PanelAction::Nothing, sync_visibility: true },
            },
            Command::Toggle { x, y } => match panel {
                None => CommandOutcome { action: PanelAction::Nothing, sync_visibility: false },
                Some(true) => {
                    self.last_hide_ms = Some(now_ms);
                    self.visibility = false;
                    CommandOutcome { action: PanelAction::Hide, sync_visibility: false }
                },
                Some(false) => {
                    let ignore = match self.last_hide_ms {
                        Some(h) => {
                            let elapsed = if now_ms >= h {
                                now_ms - h
                            } else {
                                0
                            };
                            elapsed < TOGGLE_DEBOUNCE_MS
                        },
                        None => false,
                    };
                    if ignore {
                        CommandOutcome { action: PanelAction::Nothing, sync_visibility: false }
                    } else {
                        self.visibility = true;
                        CommandOutcome {
                            action: PanelAction::ShowAndRender { x, y },
                            sync_visibility: false,
                        }
                    }
                },
            },
            Command::Reload => CommandOutcome {
                action: PanelAction::ReloadConfig,
                sync_visibility: false,
            },
            Command::Status => CommandOutcome {
                action: PanelAction::ReportStatus,
                sync_visibility: true,
            },
            Command::Quit => {
                self.running = false;
                CommandOutcome { action: PanelAction::Nothing, sync_visibility: false }
            },
        }
    }

    /// Sets the visibility flag from the panel (`None` when there is no
    /// panel, which counts as hidden).
    pub fn sync_visibility(&mut self, panel_visible: Option<bool>)
        ensures
            *final(self) == (DaemonCore {
                visibility: match panel_visible {
                    Some(v) => v,
                    None => false,
                },
                ..*old(self)
            }),
    {
        self.visibility = match panel_visible {
            Some(v) => v,
            None => false,
        };
    }

    /// Records a panel-event round: when the events closed a visible panel
    /// (escape, click outside), the flag is cleared and the hide time kept.
    pub fn after_panel_events(&mut self, was_visible: bool, is_visible: bool, now_ms: u64)
        ensures
            *final(self) == after_events_spec(*old(self), was_visible, is_visible, now_ms),
    {
        if was_visible && !is_visible {
            self.visibility = false;
            self.last_hide_ms = Some(now_ms);
        }
    }
}

/// The status line logged for a `Status` command.
pub fn status_message(panel_visible: bool) -> (m: &'static str)
    ensures
        m@ == (if panel_visible {
            "Status: running, panel visible"@
        } else {
            "Status: running, panel hidden"@
        }),
{
    if panel_visible {
        "Status: running, panel visible"
    } else {
        "Status: running, panel hidden"
    }
}

// ---------------------------------------------------------------------
// Start-up check
// ---------------------------------------------------------------------

/// The path of the daemon's PID file: `gartray.pid` in the runtime
/// directory, or in `/tmp` when there is none.
pub fn pid_file_path_in(runtime_dir: Option<&str>) -> (p: String)
    ensures
        p@ == join_path_spec(
            runtime_dir_or_tmp(
                match runtime_dir {
                    Some(d) => Some(d@),
                    None => None,
                },
            ),
            "gartray.pid"@,
        ),
{
    match runtime_dir {
        Some(d) => join_path(d, "gartray.pid"),
        None => join_path("/tmp", "gartray.pid"),
    }
}

/// The path of the daemon's PID file, in the user's runtime directory.
pub fn pid_file_path() -> (p: String)
    ensures
        exists|d: Option<Seq<char>>| p@ == join_path_spec(#[trigger] runtime_dir_or_tmp(d), "gartray.pid"@),
{
    let dir = host::runtime_dir();
    let p = match &dir {
        Some(d) => pid_file_path_in(Some(d.as_str())),
        None => pid_file_path_in(None),
    };
    proof {
        let d: Option<Seq<char>> = match dir {
            Some(d) => Some(d@),
            None => None,
        };
        assert(p@ == join_path_spec(runtime_dir_or_tmp(d), "gartray.pid"@));
    }
    p
}

/// The PID that a PID file holds: its trimmed text parsed as an `i32`;
/// `None` when that fails, which stops the start-up.
pub fn parse_pid_file(contents: &str) -> (r: Option<i32>)
    ensures
        r == parse_i32_spec(trim_spec(contents@)),
{
    parse_i32_trimmed(contents)
}

/// The `/proc` entry of a process.
pub fn proc_path(pid: i32) -> (p: String)
    ensures
        p@ == "/proc/"@ + dec_int(pid as int),
{
    let digits = i64_to_string(pid as i64);
    concat_str("/proc/", digits.as_str())
}

/// What the start-up check does, once the PID file has been looked at.
#[derive(Debug, Clone, Copy, PartialEq, Eq, Structural)]
pub enum StartupAction {
    /// Nothing stands in the way
    Proceed,
    /// Another daemon runs with this PID: stop with an error
    AlreadyRunning { pid: i32 },
    /// The PID file is stale: remove it, and the socket too when it exists
    RemoveStale { pid: i32, remove_socket: bool },
    /// A socket without a PID file is left over: remove it
    RemoveOrphanSocket,
}

/// Decides the start-up check when there is no PID file.
pub fn startup_without_pid_file(socket_exists: bool) -> (a: StartupAction)
    ensures
        a == (if socket_exists {
            StartupAction::RemoveOrphanSocket
        } else {
            StartupAction::Proceed
        }),
{
    if socket_exists {
        StartupAction::RemoveOrphanSocket
    } else {
        StartupAction::Proceed
    }
}

/// Decides the start-up check for the PID read from the PID file, given
/// whether that process exists and whether the socket exists.
pub fn startup_with_pid(pid: i32, process_exists: bool, socket_exists: bool) -> (a: StartupAction)
    ensures
        a == (if process_exists {
            StartupAction::AlreadyRunning { pid }
        } else {
            StartupAction::RemoveStale { pid, remove_socket: socket_exists }
        }),
{
    if process_exists {
        StartupAction::AlreadyRunning { pid }
    } else {
        StartupAction::RemoveStale { pid, remove_socket: socket_exists }
    }
}

/// The error for a daemon that already runs.
pub fn already_running_message(pid: i32, pid_path: &str) -> (m: String)
    ensures
        m@ == "gartray daemon already running (PID "@ + dec_int(pid as int) + "). Remove "@
            + pid_path@ + " if incorrect."@,
{
    let digits = i64_to_string(pid as i64);
    let mut m = String::from_str("gartray daemon already running (PID ");
    m.append(digits.as_str());
    m.append("). Remove ");
    m.append(pid_path);
    m.append(" if incorrect.");
    m
}

// ---------------------------------------------------------------------
// Laws
// ---------------------------------------------------------------------

/// `Quit` stops the daemon and touches nothing else; no command restarts
/// a stopped daemon.
pub proof fn law_quit_stops(core: DaemonCore, cmd: Command, panel: Option<bool>, now: u64)
    ensures
        ({
            let (c, o) = step_spec(core, cmd, panel, now);
            &&& (cmd == Command::Quit ==> !c.running && o.action == PanelAction::Nothing
                && c.visibility == core.visibility && c.last_hide_ms == core.last_hide_ms)
            &&& c.running == (core.running && cmd != Command::Quit)
        }),
{
}

/// A toggle that would show the panel within the debounce window after a
/// hide is ignored and changes nothing.
pub proof fn law_toggle_debounce(core: DaemonCore, x: i32, y: i32, hide: u64, now: u64)
    requires
        core.last_hide_ms == Some(hide),
        hide <= now < hide + TOGGLE_DEBOUNCE_MS,
    ensures
        step_spec(core, Command::Toggle { x, y }, Some(false), now) == (
            core,
            CommandOutcome { action: PanelAction::Nothing, sync_visibility: false },
        ),
{
}

/// Toggling a visible panel twice in quick succession hides it and then
/// ignores the second toggle.
pub proof fn law_double_toggle_hides_once(core: DaemonCore, x: i32, y: i32, t1: u64, t2: u64)
    requires
        t1 <= t2 < t1 + TOGGLE_DEBOUNCE_MS,
    ensures
        ({
            let (c1, o1) = step_spec(core, Command::Toggle { x, y }, Some(true), t1);
            let (c2, o2) = step_spec(c1, Command::Toggle { x, y }, Some(false), t2);
            &&& o1.action == PanelAction::Hide
            &&& !c1.visibility
            &&& o2.action == PanelAction::Nothing
            &&& c2 == c1
        }),
{
}

/// Toggle sets the shared flag to the visibility it asks for before the
/// panel acts: hidden after hiding, visible after showing.
pub proof fn law_toggle_sets_flag(core: DaemonCore, x: i32, y: i32, visible: bool, now: u64)
    requires
        visible || !debounced(core, now),
    ensures
        ({
            let (c, o) = step_spec(core, Command::Toggle { x, y }, Some(visible), now);
            &&& c.visibility == !visible
            &&& o.action == if visible {
                PanelAction::Hide
            } else {
                PanelAction::ShowAndRender { x, y }
            }
        }),
{
}

/// Showing a visible panel or hiding a hidden one does nothing to it.
pub proof fn law_show_hide_idempotent(core: DaemonCore, x: i32, y: i32, now: u64)
    ensures
        step_spec(core, Command::Show { x, y }, Some(true), now).1.action == PanelAction::Nothing,
        step_spec(core, Command::Hide, Some(false), now).1.action == PanelAction::Nothing,
        step_spec(core, Command::Hide, Some(false), now).0 == core,
{
}

/// Only hides record a hide time: a command that does not hide the panel
/// leaves the recorded time as it was.
pub proof fn law_hide_time_only_on_hide(core: DaemonCore, cmd: Command, panel: Option<bool>, now: u64)
    ensures
        ({
            let (c, o) = step_spec(core, cmd, panel, now);
            &&& o.action == PanelAction::Hide ==> c.last_hide_ms == Some(now)
            &&& o.action != PanelAction::Hide ==> c.last_hide_ms == core.last_hide_ms
        }),
{
}

} // verus!
