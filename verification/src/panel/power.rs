//! Power actions: the `loginctl` commands behind shutdown, reboot,
//! suspend and hibernate, how their exit is reported, which logind
//! answers grant a capability, and the fallbacks tried to log out.
//!
//! Running the commands and calling logind is the caller's part.

use vstd::prelude::*;
use crate::text::{
    concat_str, debug_quoted, debug_str, dec_int, decode_lossy, i64_to_string, str_eq, trim_spec,
    trimmed, utf8_lossy, views,
};

verus! {

/// A power action.
#[derive(Debug, Clone, Copy, PartialEq, Eq, Structural)]
pub enum PowerAction {
    Shutdown,
    Reboot,
    Suspend,
    Hibernate,
}

/// A program and its arguments.
#[derive(Debug, Clone)]
pub struct CommandLine {
    pub program: String,
    pub args: Vec<String>,
}

/// A command line given by literals.
fn command_line(program: &str, args: &[&str]) -> (c: CommandLine)
    ensures
        c.program@ == program@,
        c.args@.len() == args@.len(),
        forall|i: int| 0 <= i < args@.len() ==> #[trigger] c.args@[i]@ == args@[i]@,
{
    let mut v: Vec<String> = Vec::new();
    let mut i: usize = 0;
    while i < args.len()
        invariant
            i <= args@.len(),
            v@.len() == i,
            forall|j: int| 0 <= j < i ==> #[trigger] v@[j]@ == args@[j]@,
        decreases args@.len() - i,
    {
        v.push(String::from_str(args[i]));
        i = i + 1;
    }
    CommandLine { program: String::from_str(program), args: v }
}

/// The `loginctl` verb of a power action.
pub open spec fn power_verb(action: PowerAction) -> Seq<char> {
    match action {
        PowerAction::Shutdown => "poweroff"@,
        PowerAction::Reboot => "reboot"@,
        PowerAction::Suspend => "suspend"@,
        PowerAction::Hibernate => "hibernate"@,
    }
}

/// The command that carries out a power action: `loginctl` with the
/// action's verb, which lets polkit decide.
pub fn power_command(action: PowerAction) -> (c: CommandLine)
    ensures
        c.program@ == "loginctl"@,
        views(c.args@) == seq![power_verb(action)],
{
    let c = match action {
        PowerAction::Shutdown => command_line("loginctl", &["poweroff"]),
        PowerAction::Reboot => command_line("loginctl", &["reboot"]),
        PowerAction::Suspend => command_line("loginctl", &["suspend"]),
        PowerAction::Hibernate => command_line("loginctl", &["hibernate"]),
    };
    assert(views(c.args@) =~= seq![power_verb(action)]);
    c
}

/// The action to try next after running an action's command: hibernating
/// falls back to suspending when `loginctl hibernate` could not be run or
/// did not succeed; nothing else has a fallback.
pub open spec fn power_fallback_spec(action: PowerAction, status: RunStatus) -> Option<PowerAction> {
    match action {
        PowerAction::Hibernate => match status {
            RunStatus::Exited { success: true, .. } => None,
            _ => Some(PowerAction::Suspend),
        },
        _ => None,
    }
}

/// The action to run after `action`'s command ran with `status` (see
/// `power_fallback_spec`); `None` when the action is done with.
pub fn power_fallback(action: PowerAction, status: RunStatus) -> (r: Option<PowerAction>)
    ensures
        r == power_fallback_spec(action, status),
{
    match action {
        PowerAction::Hibernate => match status {
            RunStatus::Exited { success: true, .. } => None,
            _ => Some(PowerAction::Suspend),
        },
        _ => None,
    }
}

/// The `Debug` text of a list of strings: `[` then each quoted, separated
/// by `, `, then `]`.
pub open spec fn debug_list(items: Seq<Seq<char>>) -> Seq<char> {
    "["@ + debug_items(items) + "]"@
}

/// The quoted items of a list, separated by `, `.
pub open spec fn debug_items(items: Seq<Seq<char>>) -> Seq<char>
    decreases items.len(),
{
    if items.len() == 0 {
        Seq::empty()
    } else if items.len() == 1 {
        debug_str(items[0])
    } else {
        debug_items(items.drop_last()) + ", "@ + debug_str(items.last())
    }
}

/// `{:?}` of a list of strings.
pub fn debug_string_list(items: &Vec<String>) -> (s: String)
    ensures
        s@ == debug_list(views(items@)),
{
    let mut body = String::new();
    let mut i: usize = 0;
    while i < items.len()
        invariant
            i <= items@.len(),
            body@ == debug_items(views(items@).take(i as int)),
        decreases items@.len() - i,
    {
        let q = debug_quoted(items[i].as_str());
        proof {
            let vs = views(items@);
            assert(vs.take(i + 1).drop_last() =~= vs.take(i as int));
            assert(vs.take(i + 1).last() == items@[i as int]@);
        }
        if i > 0 {
            body.append(", ");
        } else {
            assert(views(items@).take(0) =~= Seq::<Seq<char>>::empty());
        }
        body.append(q.as_str());
        i = i + 1;
    }
    assert(views(items@).take(items@.len() as int) =~= views(items@));
    let s = concat_str("[", body.as_str());
    concat_str(s.as_str(), "]")
}

/// The `Debug` text of an optional exit code.
pub open spec fn debug_code(code: Option<i32>) -> Seq<char> {
    match code {
        Some(c) => "Some("@ + dec_int(c as int) + ")"@,
        None => "None"@,
    }
}

/// How running a command went: it could not be started, or it exited,
/// successfully or not, with an exit code when it has one.
#[derive(Debug, Clone, Copy, PartialEq, Eq, Structural)]
pub enum RunStatus {
    NotStarted,
    Exited { success: bool, code: Option<i32> },
}

/// The error that running `c` ends with, if any.
pub open spec fn run_error(c: CommandLine, status: RunStatus) -> Option<Seq<char>> {
    match status {
        RunStatus::NotStarted => Some(
            "Failed to run "@ + c.program@ + " "@ + debug_list(views(c.args@)),
        ),
        RunStatus::Exited { success, code } => if success {
            None
        } else {
            Some(
                c.program@ + " "@ + debug_list(views(c.args@)) + " failed with exit code "@
                    + debug_code(code),
            )
        },
    }
}

/// The result of running a power command: `Ok` when it exited
/// successfully, otherwise an error that names the command.
pub fn run_result(c: &CommandLine, status: RunStatus) -> (r: Result<(), String>)
    ensures
        match run_error(*c, status) {
            None => r is Ok,
            Some(e) => r matches Err(m) && m@ == e,
        },
{
    match status {
        RunStatus::NotStarted => {
            let a = concat_str("Failed to run ", c.program.as_str());
            let b = concat_str(a.as_str(), " ");
            let l = debug_string_list(&c.args);
            let m = concat_str(b.as_str(), l.as_str());
            Err(m)
        },
        RunStatus::Exited { success, code } => {
            if success {
                Ok(())
            } else {
                let a = concat_str(c.program.as_str(), " ");
                let l = debug_string_list(&c.args);
                let b = concat_str(a.as_str(), l.as_str());
                let d = concat_str(b.as_str(), " failed with exit code ");
                let code_text = match code {
                    Some(n) => {
                        let t = concat_str("Some(", i64_to_string(n as i64).as_str());
                        concat_str(t.as_str(), ")")
                    },
                    None => String::from_str("None"),
                };
                let m = concat_str(d.as_str(), code_text.as_str());
                assert(m@ =~= c.program@ + " "@ + debug_list(views(c.args@))
                    + " failed with exit code "@ + debug_code(code));
                Err(m)
            }
        },
    }
}

/// A capability that logind is asked about.
#[derive(Debug, Clone, Copy, PartialEq, Eq, Structural)]
pub enum Capability {
    PowerOff,
    Reboot,
    Suspend,
    Hibernate,
}

/// The `org.freedesktop.login1.Manager` method that asks for a
/// capability.
pub fn capability_method(cap: Capability) -> (m: &'static str)
    ensures
        m@ == match cap {
            Capability::PowerOff => "CanPowerOff"@,
            Capability::Reboot => "CanReboot"@,
            Capability::Suspend => "CanSuspend"@,
            Capability::Hibernate => "CanHibernate"@,
        },
{
    match cap {
        Capability::PowerOff => "CanPowerOff",
        Capability::Reboot => "CanReboot",
        Capability::Suspend => "CanSuspend",
        Capability::Hibernate => "CanHibernate",
    }
}

/// Whether logind's answer grants the action: `yes`, or `challenge`
/// (allowed after authentication).
pub open spec fn grants(answer: Seq<char>) -> bool {
    answer == "yes"@ || answer == "challenge"@
}

/// Power actions via systemd-logind.
#[derive(Debug, Clone, Copy)]
pub struct PowerModule {
    connected: bool,
}

impl PowerModule {
    /// Whether the module has a system bus connection.
    pub closed spec fn is_connected_spec(&self) -> bool {
        self.connected
    }

    /// A module without a connection.
    pub fn new() -> (m: Self)
        ensures
            !m.is_connected_spec(),
    {
        PowerModule { connected: false }
    }

    /// Records that the system bus connection was made.
    pub fn connected(&mut self)
        ensures
            final(self).is_connected_spec(),
    {
        self.connected = true;
    }

    /// Whether there is a connection to ask logind on.
    pub fn is_connected(&self) -> (b: bool)
        ensures
            b == self.is_connected_spec(),
    {
        self.connected
    }

    /// Whether an action is available, from logind's answer to the
    /// capability's method (`None` when the call failed). Without a
    /// connection nothing is available.
    pub fn check_capability(&self, answer: Option<&str>) -> (b: bool)
        ensures
            b == (self.is_connected_spec() && match answer {
                Some(a) => grants(a@),
                None => false,
            }),
    {
        if !self.connected {
            return false;
        }
        match answer {
            Some(a) => str_eq(a, "yes") || str_eq(a, "challenge"),
            None => false,
        }
    }
}

impl Default for PowerModule {
    fn default() -> (m: Self)
        ensures
            !m.is_connected_spec(),
    {
        PowerModule::new()
    }
}

// ---------------------------------------------------------------------
// Logging out
// ---------------------------------------------------------------------

/// The ways of logging out, tried in this order.
#[derive(Debug, Clone, Copy, PartialEq, Eq, Structural)]
pub enum LogoutStep {
    /// `loginctl terminate-session self`
    TerminateSession,
    /// `pkill -TERM -x gar`: stop the window manager
    KillWindowManager,
    /// `loginctl show-session self -p Leader --value`: find the session
    /// leader, to send it SIGTERM
    QuerySessionLeader,
}

/// What comes after a step.
#[derive(Debug, Clone, PartialEq, Eq)]
pub enum LogoutDecision {
    /// Logged out.
    Done,
    /// Try the next way.
    Next(LogoutStep),
    /// Send SIGTERM to the session leader with this PID (whatever `kill`
    /// answers), and the logout is done.
    KillLeader(String),
    /// Every way failed.
    Failed,
}

/// The command of a logout step.
pub fn logout_command(step: LogoutStep) -> (c: CommandLine)
    ensures
        match step {
            LogoutStep::TerminateSession => c.program@ == "loginctl"@ && views(c.args@) == seq![
                "terminate-session"@,
                "self"@,
            ],
            LogoutStep::KillWindowManager => c.program@ == "pkill"@ && views(c.args@) == seq![
                "-TERM"@,
                "-x"@,
                "gar"@,
            ],
            LogoutStep::QuerySessionLeader => c.program@ == "loginctl"@ && views(c.args@) == seq![
                "show-session"@,
                "self"@,
                "-p"@,
                "Leader"@,
                "--value"@,
            ],
        },
{
    let c = match step {
        LogoutStep::TerminateSession => command_line("loginctl", &["terminate-session", "self"]),
        LogoutStep::KillWindowManager => command_line("pkill", &["-TERM", "-x", "gar"]),
        LogoutStep::QuerySessionLeader => command_line(
            "loginctl",
            &["show-session", "self", "-p", "Leader", "--value"],
        ),
    };
    proof {
        match step {
            LogoutStep::TerminateSession => {
                assert(views(c.args@) =~= seq!["terminate-session"@, "self"@]);
            },
            LogoutStep::KillWindowManager => {
                assert(views(c.args@) =~= seq!["-TERM"@, "-x"@, "gar"@]);
            },
            LogoutStep::QuerySessionLeader => {
                assert(views(c.args@) =~= seq![
                    "show-session"@,
                    "self"@,
                    "-p"@,
                    "Leader"@,
                    "--value"@,
                ]);
            },
        }
    }
    c
}

/// The command that stops the session leader.
pub fn kill_leader_command(pid: &str) -> (c: CommandLine)
    ensures
        c.program@ == "kill"@,
        views(c.args@) == seq!["-TERM"@, pid@],
{
    let c = command_line("kill", &["-TERM", pid]);
    assert(views(c.args@) =~= seq!["-TERM"@, pid@]);
    c
}

/// What comes after a logout step, from how its command ran
/// (`success`), and for the leader query the standard output.
pub open spec fn logout_next_spec(step: LogoutStep, ran: bool, success: bool, output: Seq<u8>) -> LogoutDecision {
    if ran && success && step != LogoutStep::QuerySessionLeader {
        LogoutDecision::Done
    } else {
        match step {
            LogoutStep::TerminateSession => LogoutDecision::Next(LogoutStep::KillWindowManager),
            LogoutStep::KillWindowManager => LogoutDecision::Next(LogoutStep::QuerySessionLeader),
            LogoutStep::QuerySessionLeader => if ran && success && trim_spec(utf8_lossy(output)).len()
                > 0 {
                LogoutDecision::KillLeader(arbitrary())
            } else {
                LogoutDecision::Failed
            },
        }
    }
}

/// What comes after a logout step. `ran` says whether its command could
/// be started; `success` whether it exited successfully; `output` is
/// its standard output (used by the leader query only). A step that
/// succeeds finishes the logout; a failed one passes on to the next; the
/// leader query gives the PID to stop when it prints one.
pub fn logout_next(step: LogoutStep, ran: bool, success: bool, output: &[u8]) -> (d: LogoutDecision)
    ensures
        match logout_next_spec(step, ran, success, output@) {
            LogoutDecision::KillLeader(_) => d matches LogoutDecision::KillLeader(pid) && pid@
                == trim_spec(utf8_lossy(output@)),
            other => d == other,
        },
{
    match step {
        LogoutStep::TerminateSession => {
            if ran && success {
                LogoutDecision::Done
            } else {
                LogoutDecision::Next(LogoutStep::KillWindowManager)
            }
        },
        LogoutStep::KillWindowManager => {
            if ran && success {
                LogoutDecision::Done
            } else {
                LogoutDecision::Next(LogoutStep::QuerySessionLeader)
            }
        },
        LogoutStep::QuerySessionLeader => {
            if ran && success {
                let text = decode_lossy(output);
                let pid = trimmed(text.as_str());
                if pid.as_str().unicode_len() > 0 {
                    LogoutDecision::KillLeader(pid)
                } else {
                    LogoutDecision::Failed
                }
            } else {
                LogoutDecision::Failed
            }
        },
    }
}

/// The error that a logout ends with when every way failed.
pub fn logout_failure() -> (m: String)
    ensures
        m@ == "Failed to logout"@,
{
    String::from_str("Failed to logout")
}

/// The logout steps: the first two finish the logout when their command
/// ran and succeeded, and otherwise pass on to the next step in order
/// (terminating the session, then stopping the window manager, then
/// asking for the session leader). Only the leader query can give up, or
/// name a leader to stop, and it names one only when its command ran and
/// succeeded.
pub proof fn law_logout_steps(step: LogoutStep, ran: bool, success: bool, out: Seq<u8>)
    ensures
        step != LogoutStep::QuerySessionLeader && ran && success ==> logout_next_spec(
            step,
            ran,
            success,
            out,
        ) == LogoutDecision::Done,
        step == LogoutStep::TerminateSession && !(ran && success) ==> logout_next_spec(
            step,
            ran,
            success,
            out,
        ) == LogoutDecision::Next(LogoutStep::KillWindowManager),
        step == LogoutStep::KillWindowManager && !(ran && success) ==> logout_next_spec(
            step,
            ran,
            success,
            out,
        ) == LogoutDecision::Next(LogoutStep::QuerySessionLeader),
        logout_next_spec(step, ran, success, out) == LogoutDecision::Failed ==> step
            == LogoutStep::QuerySessionLeader,
        logout_next_spec(step, ran, success, out) is KillLeader ==> step
            == LogoutStep::QuerySessionLeader && ran && success,
        step == LogoutStep::QuerySessionLeader && !(ran && success) ==> logout_next_spec(
            step,
            ran,
            success,
            out,
        ) == LogoutDecision::Failed,
{
}

/// Each power action runs `loginctl` with its own verb: shutting down
/// powers off, rebooting reboots, suspending suspends and hibernating
/// hibernates; no two actions share a verb.
pub proof fn law_power_verbs(a: PowerAction, b: PowerAction)
    ensures
        a == PowerAction::Shutdown ==> power_verb(a) == "poweroff"@,
        a == PowerAction::Reboot ==> power_verb(a) == "reboot"@,
        a == PowerAction::Suspend ==> power_verb(a) == "suspend"@,
        a == PowerAction::Hibernate ==> power_verb(a) == "hibernate"@,
        power_verb(a) == power_verb(b) ==> a == b,
{
    reveal_strlit("poweroff");
    reveal_strlit("reboot");
    reveal_strlit("suspend");
    reveal_strlit("hibernate");
    assert("poweroff"@[0] != "reboot"@[0]);
    assert("poweroff"@[0] != "suspend"@[0]);
    assert("poweroff"@[0] != "hibernate"@[0]);
    assert("reboot"@[0] != "suspend"@[0]);
    assert("reboot"@[0] != "hibernate"@[0]);
    assert("suspend"@[0] != "hibernate"@[0]);
}

} // verus!
