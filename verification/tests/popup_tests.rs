use gartray::panel::bluetooth::BluetoothDevice;
use gartray::panel::input::{
    Effect, FocusMode, PanelContext, PanelEvent, PanelInput, PressTarget, Slider,
};
use gartray::panel::popup::{
    bluetooth_label, button_from_name, click_outside, device_row_action, device_status_label,
    due, elapsed_ms, expansion_height, find_monitor_at, focus_loss_hides, hold_reached,
    keycode_to_char, list_window, mask_password, more_above_text, more_below_text, module_choice, panel_buttons,
    panel_height,
    panel_position, scroll_down, scroll_up, starts_hold, toggle_section, truncate_label,
    wifi_label, wifi_row_action, DeviceRowAction, ExpandedSection, KeyOutcome, ListWindow,
    MonitorInfo, PanelButton, PasswordEntry, SectionChange, WifiRowAction,
};
use gartray::panel::power::PowerAction;

fn device(name: &str, connected: bool, paired: bool) -> BluetoothDevice {
    BluetoothDevice {
        name: name.to_string(),
        address: "AA:BB".to_string(),
        paired,
        connected,
        trusted: false,
        icon: "bluetooth".to_string(),
        path: format!("/dev/{}", name),
    }
}

// ---------------------------------------------------------------------
// Layout
// ---------------------------------------------------------------------

#[test]
fn expansion_heights() {
    assert_eq!(expansion_height(ExpandedSection::Collapsed, 10), 0);
    assert_eq!(expansion_height(ExpandedSection::WiFi, 0), 32 + 20 + 8);
    assert_eq!(expansion_height(ExpandedSection::WiFi, 2), 64 + 20 + 8);
    assert_eq!(expansion_height(ExpandedSection::WiFi, 3), 96 + 20 + 8);
    assert_eq!(expansion_height(ExpandedSection::WiFi, 4), 96 + 32 + 20 + 8);
    assert_eq!(expansion_height(ExpandedSection::Bluetooth, 0), 32 + 8);
    assert_eq!(expansion_height(ExpandedSection::Bluetooth, 5), 160 + 8);
    assert_eq!(expansion_height(ExpandedSection::Bluetooth, 9), 160 + 32 + 8);
    assert_eq!(panel_height(360, ExpandedSection::WiFi, 1), 360 + 60);
}

#[test]
fn panel_placement() {
    // CLI default: top right of the screen, below the bar
    assert_eq!(panel_position(0, 0, 360, 400, 1920, 1080, None), (1920 - 360 - 16, 40));
    let mon = MonitorInfo { x: 0, y: 0, width: 1920, height: 1080 };
    // click on a top bar: below the click, right edge at the monitor's
    assert_eq!(panel_position(1800, 20, 360, 400, 1920, 1080, Some(mon)), (1920 - 360 - 8, 28));
    // click on a bottom bar: above the click
    assert_eq!(panel_position(1800, 1070, 360, 400, 1920, 1080, Some(mon)), (1552, 1070 - 400 - 8));
    // no monitor found
    assert_eq!(panel_position(5, 5, 360, 400, 1920, 1080, None), (1552, 13));
    // clamped to the screen
    assert_eq!(panel_position(5, 900, 360, 400, 1920, 1080, None), (1552, 672));
}

#[test]
fn monitors_under_pointer() {
    let ms = vec![
        MonitorInfo { x: 0, y: 0, width: 1920, height: 1080 },
        MonitorInfo { x: 1920, y: 0, width: 1280, height: 1024 },
    ];
    assert_eq!(find_monitor_at(&ms, 100, 5), Some(ms[0]));
    assert_eq!(find_monitor_at(&ms, 1920, 5), Some(ms[1]));
    assert_eq!(find_monitor_at(&ms, 3200, 5), None);
    assert!(click_outside(-1, 5, 360, 400));
    assert!(click_outside(360, 5, 360, 400));
    assert!(!click_outside(0, 399, 360, 400));
}

#[test]
fn list_scrolling() {
    assert_eq!(
        list_window(10, 3, 3),
        ListWindow { offset: 3, end: 6, can_scroll_up: true, can_scroll_down: true, remaining_below: 4 }
    );
    assert_eq!(
        list_window(10, 99, 3),
        ListWindow { offset: 7, end: 10, can_scroll_up: true, can_scroll_down: false, remaining_below: 0 }
    );
    assert_eq!(
        list_window(2, 0, 3),
        ListWindow { offset: 0, end: 2, can_scroll_up: false, can_scroll_down: false, remaining_below: 0 }
    );
    assert_eq!(scroll_up(0), (0, false));
    assert_eq!(scroll_up(4), (3, true));
    assert_eq!(scroll_down(6, 10, 3), (7, true));
    assert_eq!(scroll_down(7, 10, 3), (7, false));
    // scrolling down then up comes back
    let (o, _) = scroll_down(2, 10, 3);
    assert_eq!(scroll_up(o).0, 2);
    assert_eq!(more_above_text(3), "^ 3 more above");
    assert_eq!(more_below_text(12), "v 12 more below");
}

#[test]
fn labels() {
    assert_eq!(truncate_label("HomeNetwork5G", 10, 8), "HomeNetw...");
    assert_eq!(truncate_label("Home", 10, 8), "Home");
    assert_eq!(truncate_label("ÄÖÜäöüßéèà", 10, 8), "ÄÖÜäöüßéèà");
    assert_eq!(wifi_label(false, Some("Home")), "WiFi Off");
    assert_eq!(wifi_label(true, None), "WiFi");
    assert_eq!(wifi_label(true, Some("VeryLongNetworkName")), "VeryLong...");
    let ds = vec![device("Mouse", false, true), device("Headphones", true, true), device("Kb", true, false)];
    assert_eq!(bluetooth_label(false, &ds), "BT Off");
    assert_eq!(bluetooth_label(true, &ds), "Headphones");
    assert_eq!(bluetooth_label(true, &vec![device("Mouse", false, true)]), "Bluetooth");
    assert_eq!(device_status_label(&ds[0]), "Paired");
    assert_eq!(device_status_label(&ds[1]), "Connected");
    assert_eq!(device_status_label(&device("x", false, false)), "Available");
    assert_eq!(mask_password("pässword"), "*".repeat("pässword".len()));
    assert_eq!(mask_password(""), "");
}

#[test]
fn keyboard_map() {
    assert_eq!(keycode_to_char(38, 0), Some('a'));
    assert_eq!(keycode_to_char(38, 1), Some('A'));
    assert_eq!(keycode_to_char(10, 1), Some('!'));
    assert_eq!(keycode_to_char(65, 1), Some(' '));
    assert_eq!(keycode_to_char(48, 1), Some('"'));
    assert_eq!(keycode_to_char(9, 0), None);
    assert_eq!(keycode_to_char(38, 4), Some('a'));
}

#[test]
fn password_entry_keys() {
    let mut e = PasswordEntry::new();
    assert!(matches!(e.handle_key(9, 0), KeyOutcome::HidePanel));
    assert!(matches!(e.handle_key(38, 0), KeyOutcome::Nothing));
    e.open("Cafe".to_string());
    assert!(matches!(e.handle_key(36, 0), KeyOutcome::Nothing));
    assert!(matches!(e.handle_key(38, 1), KeyOutcome::Render));
    assert!(matches!(e.handle_key(39, 0), KeyOutcome::Render));
    assert!(matches!(e.handle_key(22, 0), KeyOutcome::Render));
    assert_eq!(e.text, "A");
    e.handle_key(22, 0);
    assert!(matches!(e.handle_key(22, 0), KeyOutcome::Render));
    assert_eq!(e.text, "");
    e.handle_key(40, 0);
    match e.handle_key(36, 0) {
        KeyOutcome::Submit { ssid, password } => {
            assert_eq!(ssid, "Cafe");
            assert_eq!(password, "d");
        },
        _ => panic!("expected a submit"),
    }
    assert!(e.ssid.is_none() && e.text.is_empty());
    e.open("X".to_string());
    e.handle_key(38, 0);
    assert!(matches!(e.handle_key(9, 0), KeyOutcome::EntryCancelled));
    assert!(e.ssid.is_none() && e.text.is_empty());
}

#[test]
fn buttons_and_rows() {
    assert_eq!(button_from_name("wifi"), Some(PanelButton::Wifi));
    assert_eq!(button_from_name("hibernate"), Some(PanelButton::Hibernate));
    assert_eq!(button_from_name("volume"), None);
    assert!(starts_hold(PanelButton::Bluetooth));
    assert!(!starts_hold(PanelButton::Dnd));
    assert_eq!(
        toggle_section(ExpandedSection::Collapsed, true),
        SectionChange { expanded: ExpandedSection::WiFi, reset_wifi_scroll: false, reset_bluetooth_scroll: false, scan: true }
    );
    assert_eq!(
        toggle_section(ExpandedSection::WiFi, true),
        SectionChange { expanded: ExpandedSection::Collapsed, reset_wifi_scroll: true, reset_bluetooth_scroll: false, scan: false }
    );
    assert_eq!(toggle_section(ExpandedSection::WiFi, false).expanded, ExpandedSection::Bluetooth);
    assert_eq!(wifi_row_action(Some("Home"), "Home", true), WifiRowAction::Disconnect);
    assert_eq!(wifi_row_action(Some("Home"), "Cafe", true), WifiRowAction::AskPassword);
    assert_eq!(wifi_row_action(None, "Cafe", false), WifiRowAction::Connect);
    let ds = vec![device("a", true, true), device("b", false, true)];
    assert_eq!(device_row_action(&ds, "/dev/a"), DeviceRowAction::Disconnect);
    assert_eq!(device_row_action(&ds, "/dev/b"), DeviceRowAction::Connect);
    assert_eq!(device_row_action(&ds, "/dev/c"), DeviceRowAction::Unknown);
}

#[test]
fn timing_rules() {
    assert_eq!(elapsed_ms(1500, 1000), 500);
    assert_eq!(elapsed_ms(900, 1000), 0);
    assert!(hold_reached(1000, 1500));
    assert!(!hold_reached(1000, 1499));
    assert!(due(None, 5, 100));
    assert!(due(Some(0), 100, 100));
    assert!(!due(Some(50), 100, 100));
    assert!(!focus_loss_hides(Some(1000), 1100));
    assert!(focus_loss_hides(Some(1000), 1150));
    assert!(focus_loss_hides(None, 0));
}

// ---------------------------------------------------------------------
// Input handling
// ---------------------------------------------------------------------

fn ctx() -> PanelContext {
    PanelContext {
        width: 360,
        height: 400,
        has_network: true,
        has_bluetooth: true,
        has_power: true,
        has_dnd: true,
        has_volume: true,
        wifi_enabled: true,
        bluetooth_powered: false,
        network_count: 5,
        device_count: 2,
        connected_ssid: Some("Home".to_string()),
        devices: vec![device("a", true, true), device("b", false, false)],
    }
}

fn press(x: i32, y: i32, button: u8, target: PressTarget) -> PanelEvent {
    PanelEvent::ButtonPress { x, y, button, target }
}

#[test]
fn short_click_opens_wifi_list() {
    let mut p = PanelInput::new();
    let c = ctx();
    let (e, stop) = p.handle_event(press(10, 10, 1, PressTarget::Button(PanelButton::Wifi)), 1000, &c);
    assert!(e.is_empty() && !stop);
    assert_eq!(p.press_start, Some(1000));
    let (e, _) = p.handle_event(PanelEvent::ButtonRelease { ours: true, button: 1 }, 1200, &c);
    assert_eq!(
        e,
        vec![
            Effect::SetScanning,
            Effect::UpdateHeight,
            Effect::Render,
            Effect::Flush,
            Effect::ScanNetworks,
            Effect::UpdateHeight,
            Effect::Render
        ]
    );
    assert_eq!(p.expanded, ExpandedSection::WiFi);
    assert_eq!(p.last_wifi_scan, Some(1200));
    assert_eq!(p.press_start, None);
    // a second click closes it
    p.handle_event(press(10, 10, 1, PressTarget::Button(PanelButton::Wifi)), 2000, &c);
    let (e, _) = p.handle_event(PanelEvent::ButtonRelease { ours: true, button: 1 }, 2100, &c);
    assert_eq!(e, vec![Effect::UpdateHeight, Effect::Render]);
    assert_eq!(p.expanded, ExpandedSection::Collapsed);
}

#[test]
fn hold_switches_radio_once() {
    let mut p = PanelInput::new();
    let c = ctx();
    p.handle_event(press(10, 10, 1, PressTarget::Button(PanelButton::Bluetooth)), 0, &c);
    assert!(p.tick(499, &c).is_empty());
    assert_eq!(p.tick(500, &c), vec![Effect::SetBluetoothPowered(true), Effect::UpdateHeight, Effect::Render]);
    // the release after a hold is no click
    let (e, _) = p.handle_event(PanelEvent::ButtonRelease { ours: true, button: 1 }, 700, &c);
    assert!(e.is_empty());
    assert_eq!(p.expanded, ExpandedSection::Collapsed);
}

#[test]
fn buttons_that_act_at_once() {
    let mut p = PanelInput::new();
    let c = ctx();
    let (e, _) = p.handle_event(press(1, 1, 1, PressTarget::Button(PanelButton::Shutdown)), 0, &c);
    assert_eq!(e, vec![Effect::Power(PowerAction::Shutdown), Effect::Render]);
    let (e, _) = p.handle_event(press(1, 1, 1, PressTarget::Button(PanelButton::Logout)), 0, &c);
    assert_eq!(e, vec![Effect::Logout, Effect::Render]);
    let (e, _) = p.handle_event(press(1, 1, 1, PressTarget::Button(PanelButton::Dnd)), 0, &c);
    assert_eq!(e, vec![Effect::ToggleDnd, Effect::Render]);
    let (e, _) = p.handle_event(press(1, 1, 1, PressTarget::Button(PanelButton::Battery)), 0, &c);
    assert_eq!(e, vec![Effect::Render]);
    let mut no_power = ctx();
    no_power.has_power = false;
    let (e, _) = p.handle_event(press(1, 1, 1, PressTarget::Button(PanelButton::Restart)), 0, &no_power);
    assert_eq!(e, vec![Effect::Render]);
}

#[test]
fn clicks_outside_and_escape_hide() {
    let mut p = PanelInput::new();
    let c = ctx();
    assert_eq!(p.handle_event(press(-3, 10, 1, PressTarget::Nothing), 0, &c), (vec![Effect::Hide], true));
    assert_eq!(p.handle_event(PanelEvent::KeyPress { keycode: 9, state: 0 }, 0, &c), (vec![Effect::Hide], true));
    assert_eq!(p.handle_event(PanelEvent::KeyPress { keycode: 38, state: 0 }, 0, &c), (vec![], false));
}

#[test]
fn focus_rules() {
    let mut p = PanelInput::new();
    let c = ctx();
    p.shown(1000);
    let out = PanelEvent::FocusOut { ours: true, mode: FocusMode::Normal };
    assert_eq!(p.handle_event(out.clone(), 1100, &c), (vec![], false));
    assert_eq!(p.handle_event(out, 1150, &c), (vec![Effect::Hide], true));
    assert_eq!(p.handle_event(PanelEvent::FocusOut { ours: true, mode: FocusMode::Grab }, 0, &c), (vec![Effect::UngrabPointer], false));
    assert_eq!(p.handle_event(PanelEvent::FocusIn { ours: true, mode: FocusMode::Ungrab }, 0, &c), (vec![Effect::RegrabPointer], false));
    assert_eq!(p.handle_event(PanelEvent::FocusOut { ours: false, mode: FocusMode::Normal }, 5000, &c), (vec![], false));
    assert_eq!(p.handle_event(PanelEvent::Expose { ours: true }, 0, &c), (vec![Effect::Render], false));
}

#[test]
fn wifi_rows() {
    let mut p = PanelInput::new();
    let c = ctx();
    p.expanded = ExpandedSection::WiFi;
    let (e, _) = p.handle_event(press(50, 200, 1, PressTarget::ListItem { id: "Home".into(), needs_password: true }), 10, &c);
    assert_eq!(e, vec![Effect::WifiDisconnect, Effect::ScanNetworks, Effect::Render]);
    let (e, _) = p.handle_event(press(50, 200, 1, PressTarget::ListItem { id: "Open".into(), needs_password: false }), 20, &c);
    assert_eq!(e, vec![Effect::WifiConnect("Open".into()), Effect::ScanNetworks, Effect::Render]);
    assert_eq!(p.last_wifi_scan, Some(20));
    let (e, _) = p.handle_event(press(50, 200, 1, PressTarget::ListItem { id: "Cafe".into(), needs_password: true }), 30, &c);
    assert_eq!(e, vec![Effect::UpdateHeight, Effect::Render, Effect::Render]);
    assert_eq!(p.password.ssid, Some("Cafe".to_string()));
    // type "ab" and submit
    p.handle_event(PanelEvent::KeyPress { keycode: 38, state: 0 }, 31, &c);
    p.handle_event(PanelEvent::KeyPress { keycode: 56, state: 0 }, 32, &c);
    let (e, stop) = p.handle_event(PanelEvent::KeyPress { keycode: 36, state: 0 }, 33, &c);
    assert!(!stop);
    assert_eq!(
        e,
        vec![
            Effect::WifiConnectWithPassword { ssid: "Cafe".into(), password: "ab".into() },
            Effect::ScanNetworks,
            Effect::UpdateHeight,
            Effect::Render
        ]
    );
    assert!(p.password.ssid.is_none());
}

#[test]
fn bluetooth_rows() {
    let mut p = PanelInput::new();
    let c = ctx();
    p.expanded = ExpandedSection::Bluetooth;
    let (e, _) = p.handle_event(press(50, 200, 1, PressTarget::ListItem { id: "/dev/a".into(), needs_password: false }), 0, &c);
    assert_eq!(e, vec![Effect::DeviceDisconnect("/dev/a".into()), Effect::ScanDevices, Effect::Render]);
    let (e, _) = p.handle_event(press(50, 200, 1, PressTarget::ListItem { id: "/dev/b".into(), needs_password: false }), 0, &c);
    assert_eq!(e, vec![Effect::DeviceConnect("/dev/b".into()), Effect::ScanDevices, Effect::Render]);
    let (e, _) = p.handle_event(press(50, 200, 1, PressTarget::ListItem { id: "/dev/z".into(), needs_password: false }), 0, &c);
    assert_eq!(e, vec![Effect::ScanDevices, Effect::Render]);
}

#[test]
fn wheel_scrolls_open_list() {
    let mut p = PanelInput::new();
    let c = ctx();
    p.expanded = ExpandedSection::WiFi;
    assert_eq!(p.handle_event(press(5, 5, 4, PressTarget::Nothing), 0, &c).0, vec![]);
    assert_eq!(p.handle_event(press(5, 5, 5, PressTarget::Nothing), 0, &c).0, vec![Effect::Render]);
    assert_eq!(p.handle_event(press(5, 5, 5, PressTarget::Nothing), 0, &c).0, vec![Effect::Render]);
    assert_eq!(p.handle_event(press(5, 5, 5, PressTarget::Nothing), 0, &c).0, vec![]);
    assert_eq!(p.wifi_scroll_offset, 2);
    assert_eq!(p.handle_event(press(5, 5, 4, PressTarget::Nothing), 0, &c).0, vec![Effect::Render]);
    assert_eq!(p.wifi_scroll_offset, 1);
}

#[test]
fn slider_drag() {
    let mut p = PanelInput::new();
    let c = ctx();
    assert_eq!(p.handle_event(press(100, 300, 1, PressTarget::Slider(Slider::Volume)), 0, &c).0, vec![Effect::Render]);
    assert_eq!(p.handle_event(PanelEvent::Motion { hover: None }, 10, &c).0, vec![Effect::LiveSlider(Slider::Volume), Effect::Render]);
    assert_eq!(p.handle_event(PanelEvent::Motion { hover: None }, 20, &c).0, vec![]);
    assert_eq!(p.handle_event(PanelEvent::Motion { hover: None }, 26, &c).0, vec![Effect::Render]);
    assert_eq!(p.handle_event(PanelEvent::Motion { hover: None }, 110, &c).0, vec![Effect::LiveSlider(Slider::Volume), Effect::Render]);
    assert_eq!(
        p.handle_event(PanelEvent::ButtonRelease { ours: true, button: 1 }, 120, &c).0,
        vec![Effect::ApplySlider(Slider::Volume), Effect::Render]
    );
    assert_eq!(p.dragging, None);
    assert_eq!(p.handle_event(press(5, 5, 1, PressTarget::MuteIcon), 0, &c).0, vec![Effect::ToggleMute, Effect::Render]);
}

#[test]
fn hover_redraws_on_change() {
    let mut p = PanelInput::new();
    let c = ctx();
    assert_eq!(p.handle_event(PanelEvent::Motion { hover: Some(PanelButton::Dnd) }, 0, &c).0, vec![Effect::Render]);
    assert_eq!(p.handle_event(PanelEvent::Motion { hover: Some(PanelButton::Dnd) }, 0, &c).0, vec![]);
    assert_eq!(p.handle_event(PanelEvent::Motion { hover: None }, 0, &c).0, vec![Effect::Render]);
}

#[test]
fn periodic_wifi_refresh() {
    let mut p = PanelInput::new();
    let c = ctx();
    assert!(p.tick(0, &c).is_empty());
    p.expanded = ExpandedSection::WiFi;
    assert_eq!(p.tick(0, &c), vec![Effect::ScanNetworks, Effect::Render]);
    assert!(p.tick(9999, &c).is_empty());
    assert_eq!(p.tick(10000, &c), vec![Effect::ScanNetworks, Effect::Render]);
}

#[test]
fn panel_buttons_in_drawing_order() {
    assert_eq!(
        panel_buttons(true, false, true),
        vec![
            (PanelButton::Wifi, true),
            (PanelButton::Bluetooth, false),
            (PanelButton::Battery, false),
            (PanelButton::Dnd, true),
            (PanelButton::Shutdown, false),
            (PanelButton::Restart, false),
            (PanelButton::Logout, false),
            (PanelButton::Hibernate, false),
        ]
    );
}

#[test]
fn wheel_run_stays_in_bounds() {
    let mut c = ctx();
    c.network_count = 5;
    let mut p = PanelInput::new();
    p.expanded = ExpandedSection::WiFi;
    let buttons = [5u8, 5, 5, 5, 4, 5, 4, 4, 4, 4, 5];
    let expected = [1usize, 2, 2, 2, 1, 2, 1, 0, 0, 0, 1];
    for (b, want) in buttons.iter().zip(expected.iter()) {
        let ev = PanelEvent::ButtonPress { x: 10, y: 10, button: *b, target: PressTarget::Nothing };
        p.handle_event(ev, 0, &c);
        assert_eq!(p.wifi_scroll_offset, *want);
        assert_eq!(p.expanded, ExpandedSection::WiFi);
    }
}

#[test]
fn module_choice_from_config() {
    let c = module_choice(&vec!["volume".to_string(), "network".to_string(), "battery".to_string()]);
    assert!(c.volume && !c.brightness && c.battery);
    let none = module_choice(&vec![]);
    assert!(!none.volume && !none.brightness && !none.battery);
}
