//! Commands exchanged between the control client and the daemon, and the
//! client's handling of the daemon's reply.

use vstd::prelude::*;
use crate::host;
use crate::text::{concat_str, join_path, join_path_spec, str_eq};

verus! {

/// IPC commands understood by the daemon.
#[derive(Debug, Clone, Copy, PartialEq, Eq, Structural)]
pub enum Command {
    /// Show the panel near the given position
    Show { x: i32, y: i32 },
    /// Hide the panel
    Hide,
    /// Toggle the panel near the given position
    Toggle { x: i32, y: i32 },
    /// Reload the configuration
    Reload,
    /// Report the daemon status
    Status,
    /// Stop the daemon
    Quit,
}

/// The command a command name stands for; positions default to (0, 0).
pub open spec fn command_named(name: Seq<char>) -> Option<Command> {
    if name == "show"@ {
        Some(Command::Show { x: 0, y: 0 })
    } else if name == "hide"@ {
        Some(Command::Hide)
    } else if name == "toggle"@ {
        Some(Command::Toggle { x: 0, y: 0 })
    } else if name == "reload"@ {
        Some(Command::Reload)
    } else if name == "status"@ {
        Some(Command::Status)
    } else if name == "quit"@ {
        Some(Command::Quit)
    } else {
        None
    }
}

/// The command for a command name: "show", "hide", "toggle", "reload",
/// "status" or "quit"; `None` for any other name.
pub fn parse_command(name: &str) -> (r: Option<Command>)
    ensures
        r == command_named(name@),
{
    if str_eq(name, "show") {
        Some(Command::Show { x: 0, y: 0 })
    } else if str_eq(name, "hide") {
        Some(Command::Hide)
    } else if str_eq(name, "toggle") {
        Some(Command::Toggle { x: 0, y: 0 })
    } else if str_eq(name, "reload") {
        Some(Command::Reload)
    } else if str_eq(name, "status") {
        Some(Command::Status)
    } else if str_eq(name, "quit") {
        Some(Command::Quit)
    } else {
        None
    }
}

/// The message for a command name that `parse_command` refuses.
pub fn unknown_command_message(name: &str) -> (m: String)
    ensures
        m@ == "Unknown command: "@ + name@,
{
    concat_str("Unknown command: ", name)
}

/// The message when the daemon's socket is missing.
pub fn not_running_message() -> (m: &'static str)
    ensures
        m@ == "gartray daemon not running (socket not found)"@,
{
    "gartray daemon not running (socket not found)"
}

/// What the client does with the daemon's reply.
#[derive(Debug, Clone, PartialEq, Eq)]
pub enum ReplyOutcome {
    /// Print this line on standard output and succeed
    Print(String),
    /// Print this line on standard error and exit with status 1
    Fail(String),
}

/// The client's handling of a reply: on success, the reply's message or
/// "OK"; on failure, "Error: " followed by the message (or nothing).
pub fn reply_outcome(success: bool, message: Option<String>) -> (r: ReplyOutcome)
    ensures
        success ==> (r matches ReplyOutcome::Print(line) && line@ == (match message {
            Some(m) => m@,
            None => "OK"@,
        })),
        !success ==> (r matches ReplyOutcome::Fail(line) && line@ == "Error: "@ + (match message {
            Some(m) => m@,
            None => Seq::<char>::empty(),
        })),
{
    if success {
        match message {
            Some(m) => ReplyOutcome::Print(m),
            None => ReplyOutcome::Print(String::from_str("OK")),
        }
    } else {
        match message {
            Some(m) => ReplyOutcome::Fail(concat_str("Error: ", m.as_str())),
            None => {
                proof {
                    reveal_strlit("Error: ");
                }
                let line = String::from_str("Error: ");
                assert(line@ =~= "Error: "@ + Seq::<char>::empty());
                ReplyOutcome::Fail(line)
            },
        }
    }
}

/// The directory used when no runtime directory is known.
pub open spec fn runtime_dir_or_tmp(runtime_dir: Option<Seq<char>>) -> Seq<char> {
    match runtime_dir {
        Some(d) => d,
        None => "/tmp"@,
    }
}

/// The path of the daemon's socket: `gartray.sock` in the runtime
/// directory, or in `/tmp` when there is none.
pub fn socket_path_in(runtime_dir: Option<&str>) -> (p: String)
    ensures
        p@ == join_path_spec(
            runtime_dir_or_tmp(
                match runtime_dir {
                    Some(d) => Some(d@),
                    None => None,
                },
            ),
            "gartray.sock"@,
        ),
{
    match runtime_dir {
        Some(d) => join_path(d, "gartray.sock"),
        None => join_path("/tmp", "gartray.sock"),
    }
}

/// The path of the daemon's socket, in the user's runtime directory.
pub fn socket_path() -> (p: String)
    ensures
        exists|d: Option<Seq<char>>| p@ == join_path_spec(#[trigger] runtime_dir_or_tmp(d), "gartray.sock"@),
{
    let dir = host::runtime_dir();
    let p = match &dir {
        Some(d) => socket_path_in(Some(d.as_str())),
        None => socket_path_in(None),
    };
    proof {
        let d: Option<Seq<char>> = match dir {
            Some(d) => Some(d@),
            None => None,
        };
        assert(p@ == join_path_spec(runtime_dir_or_tmp(d), "gartray.sock"@));
    }
    p
}

} // verus!
