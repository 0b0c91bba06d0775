use gartray::panel::battery::{
    format_duration, is_battery, state, time_property, time_remaining, BatteryStatus,
    TimeProperty,
};
use gartray::panel::bluetooth::{
    default_adapter_path, find_adapter_path, parse_device, sort_devices, BluetoothDevice,
    BluetoothState,
};
use gartray::panel::dnd::{paused_from_text, DndModule, DndState};
use gartray::panel::eap::{EapFormField, EapFormState, EapMethod, Phase2Auth};
use gartray::panel::network::{
    collect_access_points, is_wifi_device, mark_and_sort_access_points, security_label,
    ssid_from_numbers, AccessPoint, NetworkState, SwitchRequest,
};
use gartray::panel::power::{
    capability_method, debug_string_list, kill_leader_command, logout_command, logout_failure,
    logout_next, power_command, power_fallback, run_result, Capability, LogoutDecision, LogoutStep, PowerAction,
    PowerModule, RunStatus,
};
use gartray::panel::volume::{connect_step, ConnectStep, ContextState, SinkState};

fn ap(ssid: &str, strength: u8) -> AccessPoint {
    AccessPoint {
        ssid: ssid.to_string(),
        strength,
        connected: false,
        security: "WPA2".to_string(),
        path: format!("/ap/{}", ssid),
    }
}

fn device(name: &str, connected: bool, paired: bool) -> BluetoothDevice {
    BluetoothDevice {
        name: name.to_string(),
        address: "00:11:22:33:44:55".to_string(),
        paired,
        connected,
        trusted: false,
        icon: "bluetooth".to_string(),
        path: format!("/org/bluez/hci0/dev_{}", name),
    }
}

// ---------------------------------------------------------------------
// Battery
// ---------------------------------------------------------------------

#[test]
fn durations() {
    assert_eq!(format_duration(0), "0m");
    assert_eq!(format_duration(59), "0m");
    assert_eq!(format_duration(60), "1m");
    assert_eq!(format_duration(3599), "59m");
    assert_eq!(format_duration(3600), "1h 0m");
    assert_eq!(format_duration(5400), "1h 30m");
    assert_eq!(format_duration(86399), "23h 59m");
    assert_eq!(format_duration(-100), "-1m");
    for secs in [-7200i64, -3601, -61, 1, 61, 7261, 123456789, i64::MAX, i64::MIN] {
        let hours = secs / 3600;
        let mins = (secs % 3600) / 60;
        let expected = if hours > 0 { format!("{}h {}m", hours, mins) } else { format!("{}m", mins) };
        assert_eq!(format_duration(secs), expected);
    }
}

#[test]
fn battery_time_left() {
    assert!(is_battery(2));
    assert!(!is_battery(1));
    assert_eq!(time_property(state::CHARGING), Some(TimeProperty::TimeToFull));
    assert_eq!(time_property(state::DISCHARGING), Some(TimeProperty::TimeToEmpty));
    assert_eq!(time_property(state::FULLY_CHARGED), None);
    assert_eq!(time_remaining(Some(5400)), Some("1h 30m".to_string()));
    assert_eq!(time_remaining(Some(0)), None);
    assert_eq!(time_remaining(Some(-5)), None);
    assert_eq!(time_remaining(None), None);
}

#[test]
fn battery_status_from_state() {
    let mut b = BatteryStatus::default();
    b.present = true;
    b.apply_state(state::CHARGING, Some(1800));
    assert!(b.charging && !b.fully_charged);
    assert_eq!(b.time_remaining, Some("30m".to_string()));
    b.apply_state(state::FULLY_CHARGED, Some(1800));
    assert!(!b.charging && b.fully_charged);
    assert_eq!(b.time_remaining, None);
    assert!(b.is_available(true));
    assert!(!b.is_available(false));
}

// ---------------------------------------------------------------------
// Do Not Disturb
// ---------------------------------------------------------------------

#[test]
fn dnd_without_dunst() {
    let mut m = DndModule::new();
    m.init(false, None);
    assert_eq!(*m.state(), DndState { enabled: false, dunst_available: false });
    assert_eq!(m.toggle(), None);
    assert!(m.is_enabled());
    assert_eq!(m.toggle(), None);
    assert!(!m.is_enabled());
}

#[test]
fn dnd_with_dunst() {
    let mut m = DndModule::new();
    m.init(true, Some(b"true\n".as_slice()));
    assert!(m.is_enabled());
    assert_eq!(m.enable(), None);
    assert_eq!(m.disable(), Some(false));
    assert_eq!(m.disable(), None);
    assert_eq!(m.toggle(), Some(true));
    assert!(m.is_enabled());
}

#[test]
fn dnd_toggle_twice_restores() {
    for (enabled, dunst) in [(false, false), (true, false), (false, true), (true, true)] {
        let mut m = DndModule::new();
        m.init(dunst, Some(if enabled { b"true".as_slice() } else { b"false".as_slice() }));
        if !dunst && enabled {
            m.enable();
        }
        let before = *m.state();
        m.toggle();
        let second = m.toggle();
        assert_eq!(*m.state(), before);
        if dunst {
            assert_eq!(second, Some(before.enabled));
        }
    }
}

#[test]
fn dunst_paused_text() {
    assert!(paused_from_text("true\n"));
    assert!(paused_from_text("  true "));
    assert!(!paused_from_text("false\n"));
    assert!(!paused_from_text("TRUE"));
    // invalid UTF-8 becomes U+FFFD, which is not "true"
    let mut m = DndModule::new();
    m.init(true, Some(&[0x74, 0x72, 0x75, 0xff]));
    assert!(!m.is_enabled());
}

// ---------------------------------------------------------------------
// EAP form
// ---------------------------------------------------------------------

#[test]
fn eap_names() {
    assert_eq!(EapMethod::Peap.as_str(), "peap");
    assert_eq!(EapMethod::Ttls.display_name(), "TTLS");
    assert_eq!(EapMethod::all(), &[EapMethod::Peap, EapMethod::Ttls]);
    assert_eq!(Phase2Auth::Mschapv2.as_str(), "mschapv2");
    assert_eq!(Phase2Auth::Gtc.display_name(), "GTC");
    assert_eq!(Phase2Auth::all().len(), 5);
}

#[test]
fn eap_cycles() {
    assert_eq!(EapMethod::Peap.next(), EapMethod::Ttls);
    assert_eq!(EapMethod::Peap.next().next(), EapMethod::Peap);
    assert_eq!(EapMethod::Ttls.prev(), EapMethod::Peap);
    let mut a = Phase2Auth::Mschapv2;
    let mut seen = vec![];
    for _ in 0..5 {
        seen.push(a);
        assert_eq!(a.next().prev(), a);
        a = a.next();
    }
    assert_eq!(a, Phase2Auth::Mschapv2);
    assert_eq!(seen, Phase2Auth::all().to_vec());
}

#[test]
fn eap_focus_order() {
    let mut f = EapFormField::EapMethod;
    let mut n = 0;
    loop {
        assert_eq!(f.next().prev(), f);
        assert_eq!(f.is_text_field() as u8 + f.is_dropdown() as u8 + f.is_button() as u8, 1);
        f = f.next();
        n += 1;
        if f == EapFormField::EapMethod {
            break;
        }
    }
    assert_eq!(n, 8);
    assert!(EapFormField::CaCertPath.is_text_field());
    assert!(EapFormField::Phase2Auth.is_dropdown());
    assert!(EapFormField::CancelButton.is_button());
}

#[test]
fn eap_editing() {
    let mut s = EapFormState::new("corp".to_string());
    assert_eq!(s.ssid, "corp");
    assert_eq!(s.current_text(), "");
    s.insert_char('x');
    assert_eq!(s.identity, "");
    s.focus_next();
    assert_eq!(s.focused_field, EapFormField::Identity);
    for c in "alice".chars() {
        s.insert_char(c);
    }
    assert_eq!(s.identity, "alice");
    assert_eq!(s.cursor_pos, 5);
    s.cursor_left();
    s.cursor_left();
    s.backspace();
    assert_eq!(s.identity, "alce");
    assert_eq!(s.cursor_pos, 2);
    s.delete();
    assert_eq!(s.identity, "ale");
    s.cursor_home();
    s.delete();
    assert_eq!(s.identity, "le");
    s.cursor_end();
    assert_eq!(s.cursor_pos, 2);
    s.cursor_right();
    assert_eq!(s.cursor_pos, 2);
    s.insert_char('é');
    assert_eq!(s.identity, "leé");
}

#[test]
fn eap_backspace_undoes_insert() {
    let mut s = EapFormState::new("n".to_string());
    s.focus_next();
    for c in "abc".chars() {
        s.insert_char(c);
    }
    s.cursor_left();
    let before = s.identity.clone();
    let pos = s.cursor_pos;
    s.insert_char('z');
    s.backspace();
    assert_eq!(s.identity, before);
    assert_eq!(s.cursor_pos, pos);
}

#[test]
fn eap_text_mut_follows_focus() {
    let mut s = EapFormState::new("n".to_string());
    assert!(s.current_text_mut().is_none());
    s.focus_next();
    s.focus_next();
    s.current_text_mut().unwrap().push_str("secret");
    assert_eq!(s.password, "secret");
    s.focus_prev();
    assert_eq!(s.cursor_pos, 0);
}

#[test]
fn eap_validation() {
    let mut s = EapFormState::new("n".to_string());
    assert_eq!(s.validate_with(true), Some("Username is required".to_string()));
    s.identity = "  ".to_string();
    assert_eq!(s.validate(), Some("Username is required".to_string()));
    s.identity = "bob".to_string();
    assert_eq!(s.validate(), Some("Password is required".to_string()));
    s.password = "pw".to_string();
    assert_eq!(s.validate(), None);
    s.ca_cert_path = "/nonexistent/ca-for-tests.pem".to_string();
    assert_eq!(
        s.validate(),
        Some("CA certificate not found: /nonexistent/ca-for-tests.pem".to_string())
    );
    assert_eq!(s.validate_with(true), None);
}

#[test]
fn eap_cursor_blink() {
    let mut s = EapFormState::new("n".to_string());
    assert!(s.cursor_visible());
    for _ in 0..30 {
        s.tick_blink();
    }
    assert!(!s.cursor_visible());
    for _ in 0..30 {
        s.tick_blink();
    }
    assert!(s.cursor_visible());
    s.blink_counter = u32::MAX;
    s.tick_blink();
    assert_eq!(s.blink_counter, 0);
}

#[test]
fn eap_cycles_on_form() {
    let mut s = EapFormState::new("n".to_string());
    s.cycle_eap_method_next();
    assert_eq!(s.eap_method, EapMethod::Ttls);
    s.cycle_eap_method_prev();
    assert_eq!(s.eap_method, EapMethod::Peap);
    s.cycle_phase2_prev();
    assert_eq!(s.phase2_auth, Phase2Auth::Gtc);
    s.cycle_phase2_next();
    assert_eq!(s.phase2_auth, Phase2Auth::Mschapv2);
    s.completions.push("x".to_string());
    s.completion_index = 1;
    s.clear_completions();
    assert!(s.completions.is_empty());
    assert_eq!(s.completion_index, 0);
}

// ---------------------------------------------------------------------
// Network
// ---------------------------------------------------------------------

#[test]
fn security_labels() {
    assert_eq!(security_label(Some(0), Some(0x188)), "WPA2");
    assert_eq!(security_label(Some(0x188), Some(0)), "WPA");
    assert_eq!(security_label(None, None), "Open");
    assert!(is_wifi_device(2));
    assert!(!is_wifi_device(1));
}

#[test]
fn ssid_decoding() {
    assert_eq!(ssid_from_numbers(&vec![]), None);
    assert_eq!(ssid_from_numbers(&vec![0x48, 0x6f, 0x6d, 0x65]), Some("Home".to_string()));
    assert_eq!(ssid_from_numbers(&vec![0x41, 0xff, 0x42]), Some("A\u{fffd}B".to_string()));
    assert_eq!(ssid_from_numbers(&vec![0x141]), Some("A".to_string()));
}

#[test]
fn access_points_deduplicated() {
    let r = collect_access_points(vec![ap("a", 40), ap("", 99), ap("b", 70), ap("a", 80), ap("a", 60), ap("b", 70)]);
    let names: Vec<(&str, u8)> = r.iter().map(|a| (a.ssid.as_str(), a.strength)).collect();
    assert_eq!(names, vec![("a", 80), ("b", 70)]);
}

#[test]
fn access_points_ordered() {
    let aps = vec![ap("weak", 10), ap("home", 50), ap("strong", 90), ap("tie", 50)];
    let r = mark_and_sort_access_points(aps, &Some("home".to_string()));
    let names: Vec<&str> = r.iter().map(|a| a.ssid.as_str()).collect();
    assert_eq!(names, vec!["home", "strong", "tie", "weak"]);
    assert!(r[0].connected && !r[1].connected);
}

#[test]
fn wifi_switch_and_scan() {
    let mut st = NetworkState::default();
    assert_eq!(st.wifi_target(SwitchRequest::Toggle), None);
    st.wifi_available = true;
    assert_eq!(st.wifi_target(SwitchRequest::Toggle), Some(true));
    assert_eq!(st.wifi_target(SwitchRequest::Off), Some(false));
    st.access_points.push(ap("x", 1));
    assert!(!st.prepare_scan());
    assert!(st.access_points.is_empty());
    st.record_wifi_enabled(true);
    assert!(st.prepare_scan());
    st.apply_scan(vec![ap("x", 1), ap("y", 2)], Some("x".to_string()));
    assert_eq!(st.access_points[0].ssid, "x");
    assert!(st.access_points[0].connected);
    assert_eq!(st.connected_ssid, Some("x".to_string()));
}

// ---------------------------------------------------------------------
// Bluetooth
// ---------------------------------------------------------------------

#[test]
fn bluetooth_device_properties() {
    assert!(parse_device("/d", Some("n".into()), None, None, None, None, None, None).is_none());
    let d = parse_device("/d", None, Some("Alias".into()), Some("AA".into()), Some(true), None, Some(false), None).unwrap();
    assert_eq!(d.name, "Alias");
    assert_eq!(d.path, "/d");
    assert!(d.paired && !d.connected && !d.trusted);
    assert_eq!(d.icon, "bluetooth");
    let d = parse_device("/e", None, None, Some("BB".into()), None, Some(true), None, Some("audio-headset".into())).unwrap();
    assert_eq!(d.name, "Unknown Device");
    assert_eq!(d.icon, "audio-headset");
    assert!(d.connected);
}

#[test]
fn bluetooth_devices_ordered() {
    let r = sort_devices(vec![
        device("zeta", false, false),
        device("beta", false, true),
        device("alpha", false, false),
        device("head", true, false),
    ]);
    let names: Vec<&str> = r.iter().map(|d| d.name.as_str()).collect();
    assert_eq!(names, vec!["head", "beta", "alpha", "zeta"]);
}

#[test]
fn bluetooth_adapter() {
    assert_eq!(default_adapter_path(), "/org/bluez/hci0");
    let objects = vec![
        ("/org/bluez".to_string(), vec!["org.bluez.AgentManager1".to_string()]),
        ("/org/bluez/hci1".to_string(), vec!["org.freedesktop.DBus.Properties".to_string(), "org.bluez.Adapter1".to_string()]),
        ("/org/bluez/hci2".to_string(), vec!["org.bluez.Adapter1".to_string()]),
    ];
    assert_eq!(find_adapter_path(&objects), Some("/org/bluez/hci1".to_string()));
    assert_eq!(find_adapter_path(&vec![]), None);
}

#[test]
fn bluetooth_switch_and_discovery() {
    let mut st = BluetoothState::default();
    assert_eq!(st.power_target(SwitchRequest::Toggle), None);
    st.available = true;
    st.adapter_path = Some("/org/bluez/hci0".to_string());
    assert_eq!(st.power_target(SwitchRequest::Toggle), Some(true));
    st.record_powered(true);
    assert_eq!(st.power_target(SwitchRequest::Toggle), Some(false));
    assert!(st.prepare_scan());
    assert!(st.discovery_may_start());
    st.record_discovering(true);
    assert!(st.discovery_to_stop());
    st.apply_scan(vec![device("b", false, false), device("a", true, false)]);
    assert_eq!(st.devices[0].name, "a");
}

// ---------------------------------------------------------------------
// Power
// ---------------------------------------------------------------------

#[test]
fn power_commands() {
    let c = power_command(PowerAction::Shutdown);
    assert_eq!((c.program.as_str(), c.args.clone()), ("loginctl", vec!["poweroff".to_string()]));
    assert_eq!(power_command(PowerAction::Reboot).args, vec!["reboot".to_string()]);
    assert_eq!(power_command(PowerAction::Suspend).args, vec!["suspend".to_string()]);
    assert_eq!(power_command(PowerAction::Hibernate).args, vec!["hibernate".to_string()]);
}

#[test]
fn power_run_results() {
    let c = power_command(PowerAction::Reboot);
    assert_eq!(run_result(&c, RunStatus::Exited { success: true, code: Some(0) }), Ok(()));
    assert_eq!(
        run_result(&c, RunStatus::Exited { success: false, code: Some(1) }),
        Err("loginctl [\"reboot\"] failed with exit code Some(1)".to_string())
    );
    assert_eq!(
        run_result(&c, RunStatus::Exited { success: false, code: None }),
        Err("loginctl [\"reboot\"] failed with exit code None".to_string())
    );
    assert_eq!(run_result(&c, RunStatus::NotStarted), Err("Failed to run loginctl [\"reboot\"]".to_string()));
}

#[test]
fn debug_lists_match_std() {
    let items = vec!["a".to_string(), "say \"hi\"\n".to_string(), "tab\there".to_string()];
    assert_eq!(debug_string_list(&items), format!("{:?}", items));
    assert_eq!(debug_string_list(&vec![]), "[]");
}

#[test]
fn capabilities() {
    assert_eq!(capability_method(Capability::PowerOff), "CanPowerOff");
    assert_eq!(capability_method(Capability::Hibernate), "CanHibernate");
    let mut m = PowerModule::new();
    assert!(!m.check_capability(Some("yes")));
    m.connected();
    assert!(m.is_connected());
    assert!(m.check_capability(Some("yes")));
    assert!(m.check_capability(Some("challenge")));
    assert!(!m.check_capability(Some("no")));
    assert!(!m.check_capability(Some("na")));
    assert!(!m.check_capability(None));
}

#[test]
fn logout_fallbacks() {
    let c = logout_command(LogoutStep::TerminateSession);
    assert_eq!(c.program, "loginctl");
    assert_eq!(c.args, vec!["terminate-session", "self"]);
    assert_eq!(logout_command(LogoutStep::KillWindowManager).args, vec!["-TERM", "-x", "gar"]);
    assert_eq!(logout_command(LogoutStep::QuerySessionLeader).args, vec!["show-session", "self", "-p", "Leader", "--value"]);
    assert_eq!(logout_next(LogoutStep::TerminateSession, true, true, b""), LogoutDecision::Done);
    assert_eq!(logout_next(LogoutStep::TerminateSession, true, false, b""), LogoutDecision::Next(LogoutStep::KillWindowManager));
    assert_eq!(logout_next(LogoutStep::KillWindowManager, false, false, b""), LogoutDecision::Next(LogoutStep::QuerySessionLeader));
    assert_eq!(logout_next(LogoutStep::QuerySessionLeader, true, true, b" 1234\n"), LogoutDecision::KillLeader("1234".to_string()));
    assert_eq!(logout_next(LogoutStep::QuerySessionLeader, true, true, b"  \n"), LogoutDecision::Failed);
    assert_eq!(logout_next(LogoutStep::QuerySessionLeader, true, false, b"1234"), LogoutDecision::Failed);
    let k = kill_leader_command("1234");
    assert_eq!((k.program.as_str(), k.args), ("kill", vec!["-TERM".to_string(), "1234".to_string()]));
    assert_eq!(logout_failure(), "Failed to logout");
}

// ---------------------------------------------------------------------
// Volume
// ---------------------------------------------------------------------

#[test]
fn pulse_connection_steps() {
    assert_eq!(connect_step(ContextState::Ready), ConnectStep::Ready);
    assert_eq!(connect_step(ContextState::Failed), ConnectStep::Failed);
    assert_eq!(connect_step(ContextState::Terminated), ConnectStep::Failed);
    assert_eq!(connect_step(ContextState::Connecting), ConnectStep::Wait);
}

#[test]
fn mute_toggling() {
    let mut s = SinkState::default();
    assert_eq!(s.mute_request(true), None);
    s.set_default_sink(Some("alsa_output".to_string()));
    assert_eq!(s.mute_request(false), None);
    assert_eq!(s.mute_request(true), Some(true));
    s.toggled_mute();
    assert!(s.muted);
    s.toggled_mute();
    assert!(!s.muted);
    s.set_sink_info(true, Some("Speakers".to_string()));
    assert!(s.muted);
    assert_eq!(s.sink_description, "Speakers");
    s.set_default_sink(None);
    assert_eq!(s.sink_name, "alsa_output");
}

#[test]
fn eap_editing_works_in_byte_offsets() {
    let mut s = EapFormState::new("n".to_string());
    s.focus_next();
    s.identity = "héllo".to_string();
    s.cursor_end();
    assert_eq!(s.cursor_pos, 6);
    s.insert_char('x');
    assert_eq!(s.identity, "héllox");
    assert_eq!(s.cursor_pos, 7);
    s.backspace();
    assert_eq!(s.identity, "héllo");
    assert_eq!(s.cursor_pos, 6);
    s.cursor_home();
    s.cursor_right();
    assert_eq!(s.cursor_pos, 1);
    s.delete();
    assert_eq!(s.identity, "hllo");
}

#[test]
fn hibernate_falls_back_to_suspend() {
    let ok = RunStatus::Exited { success: true, code: Some(0) };
    let failed = RunStatus::Exited { success: false, code: Some(1) };
    assert_eq!(power_fallback(PowerAction::Hibernate, ok), None);
    assert_eq!(power_fallback(PowerAction::Hibernate, failed), Some(PowerAction::Suspend));
    assert_eq!(power_fallback(PowerAction::Hibernate, RunStatus::NotStarted), Some(PowerAction::Suspend));
    assert_eq!(power_fallback(PowerAction::Suspend, failed), None);
    assert_eq!(power_fallback(PowerAction::Shutdown, failed), None);
}

#[test]
fn eap_insert_without_text_focus_changes_nothing() {
    let mut s = EapFormState::new("n".to_string());
    s.focused_field = EapFormField::EapMethod;
    s.cursor_pos = usize::MAX;
    s.insert_char('x');
    assert_eq!(s.cursor_pos, usize::MAX);
    assert!(s.identity.is_empty() && s.password.is_empty());
}
