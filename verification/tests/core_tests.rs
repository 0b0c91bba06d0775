use std::path::PathBuf;

use gartray::config::{config_path, config_path_in, resolve_config_path, Config};
use gartray::daemon::{
    already_running_message, parse_pid_file, pid_file_path, pid_file_path_in, proc_path,
    startup_with_pid, startup_without_pid_file, status_message, CommandOutcome, DaemonCore,
    PanelAction, StartupAction,
};
use gartray::ipc::{
    not_running_message, parse_command, reply_outcome, socket_path, socket_path_in,
    unknown_command_message, Command, ReplyOutcome,
};
use gartray::text::{
    bool_to_string, i64_to_string, is_blank, join_path, parse_i32_trimmed, parse_u32_trimmed,
    str_eq, str_lex_le, trimmed, trimmed_equals, u64_to_string,
};

// ---------------------------------------------------------------------
// Text
// ---------------------------------------------------------------------

#[test]
fn decimal_formatting_matches_std() {
    for n in [0u64, 7, 10, 99, 100, 1234567890, u64::MAX] {
        assert_eq!(u64_to_string(n), n.to_string());
    }
    for n in [0i64, -1, 42, -42, i64::MIN, i64::MAX] {
        assert_eq!(i64_to_string(n), n.to_string());
    }
}

#[test]
fn u32_text_round_trip() {
    for n in [0u32, 1, 9, 10, 4096, 65535, u32::MAX] {
        assert_eq!(parse_u32_trimmed(&u64_to_string(n as u64)), Some(n));
    }
}

#[test]
fn i32_text_round_trip() {
    for n in [0i32, 1, -1, 1234, -98765, i32::MIN, i32::MAX] {
        assert_eq!(parse_i32_trimmed(&i64_to_string(n as i64)), Some(n));
    }
}

#[test]
fn parsing_matches_std_trim_and_parse() {
    let inputs = [
        "", " ", "0", "42", " 42 ", "\t42\n", "+7", "-7", "+", "-", "4294967295",
        "4294967296", "2147483647", "2147483648", "-2147483648", "-2147483649", "12a",
        "a12", " 1 2 ", "\u{3000}15\u{2003}", "\u{85}8", "007", "+-3", "٣",
    ];
    for s in inputs {
        assert_eq!(parse_u32_trimmed(s), s.trim().parse::<u32>().ok(), "u32 of {:?}", s);
        assert_eq!(parse_i32_trimmed(s), s.trim().parse::<i32>().ok(), "i32 of {:?}", s);
    }
}

#[test]
fn trimming_matches_std() {
    for s in ["", "   ", " a ", "\u{a0}x\u{2028}", "no-space", "\t\n mixed words \r"] {
        assert_eq!(trimmed(s), s.trim());
        assert_eq!(is_blank(s), s.trim().is_empty());
    }
    assert!(trimmed_equals(" true\n", "true"));
    assert!(!trimmed_equals("truex", "true"));
}

#[test]
fn string_comparisons() {
    assert!(str_eq("abc", "abc"));
    assert!(!str_eq("abc", "abd"));
    let words = ["", "a", "ab", "b", "Z", "é", "ab\u{0}", "aa"];
    for a in words {
        for b in words {
            assert_eq!(str_lex_le(a, b), a <= b, "{:?} <= {:?}", a, b);
        }
    }
}

#[test]
fn join_path_matches_pathbuf() {
    let cases = [
        ("/run/user/1000", "gartray.sock"),
        ("/tmp/", "gartray.pid"),
        ("", "x"),
        ("a", "/abs"),
        ("rel/dir", "file.toml"),
        ("/", "etc"),
    ];
    for (base, comp) in cases {
        let expected = PathBuf::from(base).join(comp);
        assert_eq!(join_path(base, comp), expected.to_str().unwrap());
    }
}

#[test]
fn bool_text() {
    assert_eq!(bool_to_string(true), "true");
    assert_eq!(bool_to_string(false), "false");
}

// ---------------------------------------------------------------------
// IPC
// ---------------------------------------------------------------------

#[test]
fn command_names() {
    assert_eq!(parse_command("show"), Some(Command::Show { x: 0, y: 0 }));
    assert_eq!(parse_command("hide"), Some(Command::Hide));
    assert_eq!(parse_command("toggle"), Some(Command::Toggle { x: 0, y: 0 }));
    assert_eq!(parse_command("reload"), Some(Command::Reload));
    assert_eq!(parse_command("status"), Some(Command::Status));
    assert_eq!(parse_command("quit"), Some(Command::Quit));
    assert_eq!(parse_command("Show"), None);
    assert_eq!(parse_command("panel"), None);
}

#[test]
fn client_messages() {
    assert_eq!(unknown_command_message("frob"), "Unknown command: frob");
    assert_eq!(not_running_message(), "gartray daemon not running (socket not found)");
}

#[test]
fn reply_outcomes() {
    assert_eq!(reply_outcome(true, None), ReplyOutcome::Print("OK".to_string()));
    assert_eq!(
        reply_outcome(true, Some("Status: running, panel hidden".to_string())),
        ReplyOutcome::Print("Status: running, panel hidden".to_string())
    );
    assert_eq!(
        reply_outcome(false, Some("boom".to_string())),
        ReplyOutcome::Fail("Error: boom".to_string())
    );
    assert_eq!(reply_outcome(false, None), ReplyOutcome::Fail("Error: ".to_string()));
}

#[test]
fn socket_paths() {
    assert_eq!(socket_path_in(Some("/run/user/1000")), "/run/user/1000/gartray.sock");
    assert_eq!(socket_path_in(None), "/tmp/gartray.sock");
    assert!(socket_path().ends_with("/gartray.sock"));
}

// ---------------------------------------------------------------------
// Configuration
// ---------------------------------------------------------------------

#[test]
fn config_paths() {
    assert_eq!(config_path_in(Some("/home/a/.config")), "/home/a/.config/gartray/config.toml");
    assert_eq!(config_path_in(None), "~/.config/gartray/config.toml");
    assert_eq!(resolve_config_path(Some("/etc/gt.toml"), Some("/home/a/.config")), "/etc/gt.toml");
    assert_eq!(
        resolve_config_path(None, Some("/home/a/.config")),
        "/home/a/.config/gartray/config.toml"
    );
    assert!(config_path().ends_with("gartray/config.toml"));
}

#[test]
fn config_defaults() {
    let c = Config::default();
    assert!(c.panel.enabled);
    assert_eq!(c.panel.width, 360);
    assert_eq!(
        c.panel.modules,
        vec!["volume", "brightness", "network", "bluetooth", "battery", "power"]
    );
    assert!(!c.panel.volume.show_per_app && !c.panel.volume.show_input);
    assert!(!c.panel.network.show_vpn && !c.panel.network.show_ethernet);
    assert!(!c.panel.bluetooth.show_battery);
    assert_eq!(c.theme.preset, "dark");
}

// ---------------------------------------------------------------------
// Daemon
// ---------------------------------------------------------------------

#[test]
fn show_hides_nothing_when_visible() {
    let mut core = DaemonCore::new();
    let out = core.handle_command(Command::Show { x: 5, y: 6 }, Some(false), 0);
    assert_eq!(out, CommandOutcome { action: PanelAction::ShowAndRender { x: 5, y: 6 }, sync_visibility: true });
    let out = core.handle_command(Command::Show { x: 5, y: 6 }, Some(true), 0);
    assert_eq!(out.action, PanelAction::Nothing);
}

#[test]
fn hide_records_time() {
    let mut core = DaemonCore::new();
    let out = core.handle_command(Command::Hide, Some(true), 1000);
    assert_eq!(out.action, PanelAction::Hide);
    assert_eq!(core.last_hide_ms, Some(1000));
    let out = core.handle_command(Command::Hide, Some(false), 2000);
    assert_eq!(out.action, PanelAction::Nothing);
    assert_eq!(core.last_hide_ms, Some(1000));
}

#[test]
fn toggle_debounce_after_hide() {
    let mut core = DaemonCore::new();
    let out = core.handle_command(Command::Toggle { x: 1, y: 2 }, Some(true), 1000);
    assert_eq!(out.action, PanelAction::Hide);
    assert!(!core.visibility);
    // A toggle 200 ms after the hide is the same click bouncing back.
    let out = core.handle_command(Command::Toggle { x: 1, y: 2 }, Some(false), 1200);
    assert_eq!(out.action, PanelAction::Nothing);
    // 300 ms after, it shows again.
    let out = core.handle_command(Command::Toggle { x: 1, y: 2 }, Some(false), 1300);
    assert_eq!(out.action, PanelAction::ShowAndRender { x: 1, y: 2 });
    assert!(core.visibility);
}

#[test]
fn toggle_without_panel_does_nothing() {
    let mut core = DaemonCore::new();
    let before = core;
    let out = core.handle_command(Command::Toggle { x: 0, y: 0 }, None, 10);
    assert_eq!(out, CommandOutcome { action: PanelAction::Nothing, sync_visibility: false });
    assert_eq!(core, before);
}

#[test]
fn quit_reload_status() {
    let mut core = DaemonCore::new();
    assert!(core.running);
    assert_eq!(core.handle_command(Command::Reload, Some(true), 0).action, PanelAction::ReloadConfig);
    assert_eq!(core.handle_command(Command::Status, Some(true), 0).action, PanelAction::ReportStatus);
    core.handle_command(Command::Quit, Some(true), 0);
    assert!(!core.running);
}

#[test]
fn visibility_follows_panel() {
    let mut core = DaemonCore::new();
    core.sync_visibility(Some(true));
    assert!(core.visibility);
    core.sync_visibility(None);
    assert!(!core.visibility);
    core.sync_visibility(Some(true));
    core.after_panel_events(true, false, 5000);
    assert!(!core.visibility);
    assert_eq!(core.last_hide_ms, Some(5000));
}

#[test]
fn status_lines() {
    assert_eq!(status_message(true), "Status: running, panel visible");
    assert_eq!(status_message(false), "Status: running, panel hidden");
}

#[test]
fn pid_files() {
    assert_eq!(pid_file_path_in(Some("/run/user/1000")), "/run/user/1000/gartray.pid");
    assert_eq!(pid_file_path_in(None), "/tmp/gartray.pid");
    assert!(pid_file_path().ends_with("/gartray.pid"));
    assert_eq!(parse_pid_file(" 1234\n"), Some(1234));
    assert_eq!(parse_pid_file("-5"), Some(-5));
    assert_eq!(parse_pid_file("12ab"), None);
    assert_eq!(parse_pid_file(""), None);
    assert_eq!(proc_path(4242), "/proc/4242");
}

#[test]
fn startup_decisions() {
    assert_eq!(startup_without_pid_file(false), StartupAction::Proceed);
    assert_eq!(startup_without_pid_file(true), StartupAction::RemoveOrphanSocket);
    assert_eq!(startup_with_pid(77, true, true), StartupAction::AlreadyRunning { pid: 77 });
    assert_eq!(
        startup_with_pid(77, false, true),
        StartupAction::RemoveStale { pid: 77, remove_socket: true }
    );
    assert_eq!(
        startup_with_pid(77, false, false),
        StartupAction::RemoveStale { pid: 77, remove_socket: false }
    );
    assert_eq!(
        already_running_message(77, "/tmp/gartray.pid"),
        "gartray daemon already running (PID 77). Remove /tmp/gartray.pid if incorrect."
    );
}
