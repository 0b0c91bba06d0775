//! The panel's input handling: what each X event, and the passing of
//! time, does to the panel's state, and what it asks of the program
//! (redraw, hide, resize, talk to NetworkManager, BlueZ, logind, dunst or
//! the audio and backlight controls).
//!
//! Hit testing on the drawn shapes and slider values work in floating
//! point and are the program's part: it hands over what was hit.

use vstd::prelude::*;
use crate::panel::bluetooth::BluetoothDevice;
use crate::panel::popup::{
    click_outside, device_at_path, device_row_action, due, elapsed_ms, keycode_char_spec,
    max_scroll, scroll_down, scroll_up, since_ms, starts_hold, wifi_row_action,
    DeviceRowAction, ExpandedSection, KeyOutcome, PanelButton, PasswordEntry, WifiRowAction,
    BLUETOOTH_MAX_VISIBLE, DRAG_RENDER_INTERVAL_MS, FOCUS_GRACE_MS, HOLD_THRESHOLD_MS, KEY_ESCAPE,
    SLIDER_APPLY_INTERVAL_MS, WIFI_MAX_VISIBLE, WIFI_REFRESH_INTERVAL_MS,
};
use crate::panel::power::PowerAction;

verus! {

/// A slider row.
#[derive(Debug, Clone, Copy, PartialEq, Eq, Structural)]
pub enum Slider {
    Volume,
    Brightness,
}

/// What the program is asked to do, in order.
#[derive(Debug, Clone, PartialEq, Eq)]
pub enum Effect {
    /// Redraw the panel
    Render,
    /// Hide the panel
    Hide,
    /// Release the pointer grab (another program grabs)
    UngrabPointer,
    /// Grab the pointer again (for click-outside detection)
    RegrabPointer,
    /// Recompute the panel's height and resize it
    UpdateHeight,
    /// Flush the X connection (so a redraw shows before a slow call)
    Flush,
    /// Mark the WiFi list as scanning
    SetScanning,
    /// Scan for WiFi networks
    ScanNetworks,
    /// Scan for Bluetooth devices
    ScanDevices,
    /// Carry out a power action
    Power(PowerAction),
    /// Log out
    Logout,
    /// Toggle Do Not Disturb
    ToggleDnd,
    /// Toggle the audio mute
    ToggleMute,
    /// Switch WiFi on or off
    SetWifiEnabled(bool),
    /// Switch the Bluetooth adapter on or off
    SetBluetoothPowered(bool),
    /// Disconnect from the WiFi network
    WifiDisconnect,
    /// Connect to a WiFi network (open, or with saved credentials)
    WifiConnect(String),
    /// Connect to a WiFi network with a password
    WifiConnectWithPassword { ssid: String, password: String },
    /// Connect a Bluetooth device (by object path)
    DeviceConnect(String),
    /// Disconnect a Bluetooth device (by object path)
    DeviceDisconnect(String),
    /// Apply the dragged slider's value
    ApplySlider(Slider),
    /// Apply the dragged slider's value while dragging
    LiveSlider(Slider),
}

/// An effect, with its texts as character sequences.
#[verifier::ext_equal]
pub enum EffectV {
    Render,
    Hide,
    UngrabPointer,
    RegrabPointer,
    UpdateHeight,
    Flush,
    SetScanning,
    ScanNetworks,
    ScanDevices,
    Power(PowerAction),
    Logout,
    ToggleDnd,
    ToggleMute,
    SetWifiEnabled(bool),
    SetBluetoothPowered(bool),
    WifiDisconnect,
    WifiConnect(Seq<char>),
    WifiConnectWithPassword(Seq<char>, Seq<char>),
    DeviceConnect(Seq<char>),
    DeviceDisconnect(Seq<char>),
    ApplySlider(Slider),
    LiveSlider(Slider),
}

/// The view of an effect.
pub open spec fn effect_view(e: Effect) -> EffectV {
    match e {
        Effect::Render => EffectV::Render,
        Effect::Hide => EffectV::Hide,
        Effect::UngrabPointer => EffectV::UngrabPointer,
        Effect::RegrabPointer => EffectV::RegrabPointer,
        Effect::UpdateHeight => EffectV::UpdateHeight,
        Effect::Flush => EffectV::Flush,
        Effect::SetScanning => EffectV::SetScanning,
        Effect::ScanNetworks => EffectV::ScanNetworks,
        Effect::ScanDevices => EffectV::ScanDevices,
        Effect::Power(a) => EffectV::Power(a),
        Effect::Logout => EffectV::Logout,
        Effect::ToggleDnd => EffectV::ToggleDnd,
        Effect::ToggleMute => EffectV::ToggleMute,
        Effect::SetWifiEnabled(b) => EffectV::SetWifiEnabled(b),
        Effect::SetBluetoothPowered(b) => EffectV::SetBluetoothPowered(b),
        Effect::WifiDisconnect => EffectV::WifiDisconnect,
        Effect::WifiConnect(s) => EffectV::WifiConnect(s@),
        Effect::WifiConnectWithPassword { ssid, password } => EffectV::WifiConnectWithPassword(
            ssid@,
            password@,
        ),
        Effect::DeviceConnect(p) => EffectV::DeviceConnect(p@),
        Effect::DeviceDisconnect(p) => EffectV::DeviceDisconnect(p@),
        Effect::ApplySlider(s) => EffectV::ApplySlider(s),
        Effect::LiveSlider(s) => EffectV::LiveSlider(s),
    }
}

/// The views of a list of effects.
pub open spec fn effects_view(v: Seq<Effect>) -> Seq<EffectV> {
    v.map_values(|e: Effect| effect_view(e))
}

/// How focus moved.
#[derive(Debug, Clone, Copy, PartialEq, Eq, Structural)]
pub enum FocusMode {
    Normal,
    Grab,
    Ungrab,
    Other,
}

/// What a left press landed on, as the program's hit test found it.
#[derive(Debug, Clone)]
pub enum PressTarget {
    /// A toggle button
    Button(PanelButton),
    /// A list row: a network's SSID (with whether it needs a password) or
    /// a device's object path
    ListItem { id: String, needs_password: bool },
    /// The speaker icon of the volume row
    MuteIcon,
    /// A slider
    Slider(Slider),
    /// Nothing that reacts
    Nothing,
}

/// An X event on the panel, with what the panel reads of it.
#[derive(Debug, Clone)]
pub enum PanelEvent {
    /// Exposure; `ours` when on the panel window
    Expose { ours: bool },
    /// Focus left the panel window (`ours`)
    FocusOut { ours: bool, mode: FocusMode },
    /// Focus came to the panel window (`ours`)
    FocusIn { ours: bool, mode: FocusMode },
    /// A key press: its key code and modifier state
    KeyPress { keycode: u8, state: u16 },
    /// A pointer press at (x, y) relative to the panel, and what it hit
    ButtonPress { x: i32, y: i32, button: u8, target: PressTarget },
    /// A pointer release; `ours` when on the panel window
    ButtonRelease { ours: bool, button: u8 },
    /// Pointer motion, with the toggle button under the pointer
    Motion { hover: Option<PanelButton> },
    /// Anything else
    Other,
}

/// What the panel knows of its modules when an event comes.
#[derive(Debug, Clone)]
pub struct PanelContext {
    pub width: u32,
    pub height: u32,
    pub has_network: bool,
    pub has_bluetooth: bool,
    pub has_power: bool,
    pub has_dnd: bool,
    pub has_volume: bool,
    pub wifi_enabled: bool,
    pub bluetooth_powered: bool,
    /// Networks in the WiFi list (0 without NetworkManager)
    pub network_count: usize,
    /// Devices in the Bluetooth list (0 without BlueZ)
    pub device_count: usize,
    pub connected_ssid: Option<String>,
    pub devices: Vec<BluetoothDevice>,
}

/// The panel's input state.
#[derive(Debug, Clone)]
pub struct PanelInput {
    pub expanded: ExpandedSection,
    pub wifi_scroll_offset: usize,
    pub bluetooth_scroll_offset: usize,
    pub password: PasswordEntry,
    /// When the current press began (milliseconds), while a press on a
    /// hold button lasts
    pub press_start: Option<u64>,
    pub press_button: Option<PanelButton>,
    pub dragging: Option<Slider>,
    pub show_time: Option<u64>,
    pub last_wifi_scan: Option<u64>,
    pub last_slider_apply: Option<u64>,
    pub last_render: Option<u64>,
    pub hovered: Option<PanelButton>,
}

/// The panel's input state, with its texts as character sequences.
#[verifier::ext_equal]
pub struct InputView {
    pub expanded: ExpandedSection,
    pub wifi_scroll_offset: usize,
    pub bluetooth_scroll_offset: usize,
    pub entry_ssid: Option<Seq<char>>,
    pub entry_text: Seq<char>,
    pub press_start: Option<u64>,
    pub press_button: Option<PanelButton>,
    pub dragging: Option<Slider>,
    pub show_time: Option<u64>,
    pub last_wifi_scan: Option<u64>,
    pub last_slider_apply: Option<u64>,
    pub last_render: Option<u64>,
    pub hovered: Option<PanelButton>,
}

impl View for PanelInput {
    type V = InputView;

    open spec fn view(&self) -> InputView {
        InputView {
            expanded: self.expanded,
            wifi_scroll_offset: self.wifi_scroll_offset,
            bluetooth_scroll_offset: self.bluetooth_scroll_offset,
            entry_ssid: match self.password.ssid {
                Some(s) => Some(s@),
                None => None,
            },
            entry_text: self.password.text@,
            press_start: self.press_start,
            press_button: self.press_button,
            dragging: self.dragging,
            show_time: self.show_time,
            last_wifi_scan: self.last_wifi_scan,
            last_slider_apply: self.last_slider_apply,
            last_render: self.last_render,
            hovered: self.hovered,
        }
    }
}

/// The effects `e` when `cond` holds, none otherwise.
pub open spec fn when(cond: bool, e: Seq<EffectV>) -> Seq<EffectV> {
    if cond {
        e
    } else {
        Seq::empty()
    }
}

/// A hold on WiFi or Bluetooth: the radio switches (when its module is
/// there) and the lists close.
pub open spec fn hold_spec(v: InputView, b: PanelButton, ctx: PanelContext) -> (InputView, Seq<EffectV>) {
    match b {
        PanelButton::Wifi => if ctx.has_network {
            (
                InputView { expanded: ExpandedSection::Collapsed, ..v },
                seq![EffectV::SetWifiEnabled(!ctx.wifi_enabled), EffectV::UpdateHeight],
            )
        } else {
            (v, Seq::empty())
        },
        PanelButton::Bluetooth => if ctx.has_bluetooth {
            (
                InputView { expanded: ExpandedSection::Collapsed, ..v },
                seq![EffectV::SetBluetoothPowered(!ctx.bluetooth_powered), EffectV::UpdateHeight],
            )
        } else {
            (v, Seq::empty())
        },
        _ => (v, Seq::empty()),
    }
}

/// A short click on WiFi or Bluetooth: its list closes when open (and
/// scrolls back to the top); otherwise it opens, redraws as scanning and
/// is scanned.
pub open spec fn click_spec(v: InputView, b: PanelButton, ctx: PanelContext, now: u64) -> (InputView, Seq<EffectV>) {
    match b {
        PanelButton::Wifi => if v.expanded == ExpandedSection::WiFi {
            (
                InputView { expanded: ExpandedSection::Collapsed, wifi_scroll_offset: 0, ..v },
                seq![EffectV::UpdateHeight],
            )
        } else {
            (
                InputView {
                    expanded: ExpandedSection::WiFi,
                    last_wifi_scan: if ctx.has_network {
                        Some(now)
                    } else {
                        v.last_wifi_scan
                    },
                    ..v
                },
                when(ctx.has_network, seq![EffectV::SetScanning]) + seq![
                    EffectV::UpdateHeight,
                    EffectV::Render,
                    EffectV::Flush,
                ] + when(ctx.has_network, seq![EffectV::ScanNetworks]) + seq![EffectV::UpdateHeight],
            )
        },
        PanelButton::Bluetooth => if v.expanded == ExpandedSection::Bluetooth {
            (
                InputView { expanded: ExpandedSection::Collapsed, bluetooth_scroll_offset: 0, ..v },
                seq![EffectV::UpdateHeight],
            )
        } else {
            (
                InputView { expanded: ExpandedSection::Bluetooth, ..v },
                seq![EffectV::UpdateHeight, EffectV::Render, EffectV::Flush] + when(
                    ctx.has_bluetooth,
                    seq![EffectV::ScanDevices],
                ) + seq![EffectV::UpdateHeight],
            )
        },
        _ => (v, Seq::empty()),
    }
}

/// A press on a button that acts at once: the power actions (with the
/// power module), DND (with the DND module); the battery only shows.
pub open spec fn toggle_spec(b: PanelButton, ctx: PanelContext) -> Seq<EffectV> {
    match b {
        PanelButton::Shutdown => when(ctx.has_power, seq![EffectV::Power(PowerAction::Shutdown)]),
        PanelButton::Restart => when(ctx.has_power, seq![EffectV::Power(PowerAction::Reboot)]),
        PanelButton::Logout => when(ctx.has_power, seq![EffectV::Logout]),
        PanelButton::Hibernate => when(ctx.has_power, seq![EffectV::Power(PowerAction::Hibernate)]),
        PanelButton::Dnd => when(ctx.has_dnd, seq![EffectV::ToggleDnd]),
        _ => Seq::empty(),
    }
}

/// A click on a list row of the open list: a WiFi row disconnects,
/// asks for the password or connects (see `wifi_row_action`), then the
/// list is scanned again unless the password is asked; a Bluetooth row
/// connects or disconnects its device (see `device_row_action`), then the
/// devices are scanned again.
pub open spec fn list_item_spec(
    v: InputView,
    id: Seq<char>,
    needs_password: bool,
    ctx: PanelContext,
    now: u64,
) -> (InputView, Seq<EffectV>) {
    match v.expanded {
        ExpandedSection::WiFi => if !ctx.has_network {
            (v, Seq::empty())
        } else if (match ctx.connected_ssid {
            Some(c) => c@ == id,
            None => false,
        }) {
            (
                InputView { last_wifi_scan: Some(now), ..v },
                seq![EffectV::WifiDisconnect, EffectV::ScanNetworks],
            )
        } else if needs_password {
            (
                InputView { entry_ssid: Some(id), entry_text: Seq::empty(), ..v },
                seq![EffectV::UpdateHeight, EffectV::Render],
            )
        } else {
            (
                InputView { last_wifi_scan: Some(now), ..v },
                seq![EffectV::WifiConnect(id), EffectV::ScanNetworks],
            )
        },
        ExpandedSection::Bluetooth => if !ctx.has_bluetooth {
            (v, Seq::empty())
        } else {
            (
                v,
                (match device_at_path(ctx.devices@, id) {
                    Some(d) => if d.connected {
                        seq![EffectV::DeviceDisconnect(id)]
                    } else {
                        seq![EffectV::DeviceConnect(id)]
                    },
                    None => Seq::empty(),
                }) + seq![EffectV::ScanDevices],
            )
        },
        ExpandedSection::Collapsed => (v, Seq::empty()),
    }
}

/// The passing of time: a press on WiFi or Bluetooth held long enough
/// becomes a hold (and redraws); an open WiFi list is scanned again when
/// due.
pub open spec fn tick_spec(v: InputView, now: u64, ctx: PanelContext) -> (InputView, Seq<EffectV>) {
    let (v1, e1) = match v.press_start {
        Some(ps) => if since_ms(now, ps) >= HOLD_THRESHOLD_MS {
            match v.press_button {
                Some(b) => {
                    let v0 = InputView { press_start: None, press_button: None, ..v };
                    let (vh, eh) = hold_spec(v0, b, ctx);
                    (vh, eh + seq![EffectV::Render])
                },
                None => (v, Seq::empty()),
            }
        } else {
            (v, Seq::empty())
        },
        None => (v, Seq::empty()),
    };
    if v1.expanded == ExpandedSection::WiFi && ctx.has_network && (match v1.last_wifi_scan {
        Some(t) => since_ms(now, t) >= WIFI_REFRESH_INTERVAL_MS,
        None => true,
    }) {
        (
            InputView { last_wifi_scan: Some(now), ..v1 },
            e1 + seq![EffectV::ScanNetworks, EffectV::Render],
        )
    } else {
        (v1, e1)
    }
}


/// A pointer press: outside the panel it hides the panel; the wheel
/// scrolls the open list; a left press clears any pending press and then
/// starts a hold (WiFi, Bluetooth), acts on a button, clicks a row,
/// toggles the mute, or starts dragging a slider.
pub open spec fn press_spec(
    v: InputView,
    x: i32,
    y: i32,
    button: u8,
    target: PressTarget,
    ctx: PanelContext,
    now: u64,
) -> (InputView, Seq<EffectV>, bool) {
    if x < 0 || y < 0 || x >= ctx.width || y >= ctx.height {
        (v, seq![EffectV::Hide], true)
    } else {
        let (v1, e1) = if button == 4 {
            match v.expanded {
                ExpandedSection::WiFi => if v.wifi_scroll_offset > 0 {
                    (
                        InputView { wifi_scroll_offset: (v.wifi_scroll_offset - 1) as usize, ..v },
                        seq![EffectV::Render],
                    )
                } else {
                    (v, Seq::empty())
                },
                ExpandedSection::Bluetooth => if v.bluetooth_scroll_offset > 0 {
                    (
                        InputView {
                            bluetooth_scroll_offset: (v.bluetooth_scroll_offset - 1) as usize,
                            ..v
                        },
                        seq![EffectV::Render],
                    )
                } else {
                    (v, Seq::empty())
                },
                ExpandedSection::Collapsed => (v, Seq::empty()),
            }
        } else if button == 5 {
            match v.expanded {
                ExpandedSection::WiFi => if v.wifi_scroll_offset < max_scroll(
                    ctx.network_count as nat,
                    WIFI_MAX_VISIBLE as nat,
                ) {
                    (
                        InputView { wifi_scroll_offset: (v.wifi_scroll_offset + 1) as usize, ..v },
                        seq![EffectV::Render],
                    )
                } else {
                    (v, Seq::empty())
                },
                ExpandedSection::Bluetooth => if v.bluetooth_scroll_offset < max_scroll(
                    ctx.device_count as nat,
                    BLUETOOTH_MAX_VISIBLE as nat,
                ) {
                    (
                        InputView {
                            bluetooth_scroll_offset: (v.bluetooth_scroll_offset + 1) as usize,
                            ..v
                        },
                        seq![EffectV::Render],
                    )
                } else {
                    (v, Seq::empty())
                },
                ExpandedSection::Collapsed => (v, Seq::empty()),
            }
        } else {
            (v, Seq::empty())
        };
        if button == 1 {
            let v2 = InputView { press_start: None, press_button: None, ..v1 };
            match target {
                PressTarget::Button(b) => if b == PanelButton::Wifi || b == PanelButton::Bluetooth {
                    (InputView { press_start: Some(now), press_button: Some(b), ..v2 }, e1, false)
                } else {
                    (v2, e1 + toggle_spec(b, ctx) + seq![EffectV::Render], false)
                },
                PressTarget::ListItem { id, needs_password } => {
                    let (v3, e3) = list_item_spec(v2, id@, needs_password, ctx, now);
                    (v3, e1 + e3 + seq![EffectV::Render], false)
                },
                PressTarget::MuteIcon => (
                    v2,
                    e1 + when(ctx.has_volume, seq![EffectV::ToggleMute]) + seq![EffectV::Render],
                    false,
                ),
                PressTarget::Slider(s) => (
                    InputView { dragging: Some(s), ..v2 },
                    e1 + seq![EffectV::Render],
                    false,
                ),
                PressTarget::Nothing => (v2, e1, false),
            }
        } else {
            (v1, e1, false)
        }
    }
}

/// A left release on the panel: a press on WiFi or Bluetooth that did
/// not become a hold is a click (and redraws); a drag ends and its value
/// is applied.
pub open spec fn release_spec(v: InputView, ours: bool, button: u8, ctx: PanelContext, now: u64) -> (InputView, Seq<EffectV>) {
    if !(ours && button == 1) {
        (v, Seq::empty())
    } else {
        let (v1, e1) = match v.press_start {
            Some(ps) => {
                let v0 = InputView { press_start: None, press_button: None, ..v };
                match v.press_button {
                    Some(b) => if since_ms(now, ps) < HOLD_THRESHOLD_MS {
                        let (vc, ec) = click_spec(v0, b, ctx, now);
                        (vc, ec + seq![EffectV::Render])
                    } else {
                        (v0, Seq::empty())
                    },
                    None => (v0, Seq::empty()),
                }
            },
            None => (v, Seq::empty()),
        };
        match v1.dragging {
            Some(s) => (
                InputView { dragging: None, last_slider_apply: None, last_render: None, ..v1 },
                e1 + seq![EffectV::ApplySlider(s), EffectV::Render],
            ),
            None => (v1, e1),
        }
    }
}

/// Pointer motion: while dragging, the value is applied and the panel
/// redrawn, each at most at its own rate; otherwise a change of the
/// button under the pointer redraws.
pub open spec fn motion_spec(v: InputView, hover: Option<PanelButton>, now: u64) -> (InputView, Seq<EffectV>) {
    match v.dragging {
        Some(s) => {
            let apply = match v.last_slider_apply {
                Some(t) => since_ms(now, t) >= SLIDER_APPLY_INTERVAL_MS,
                None => true,
            };
            let render = match v.last_render {
                Some(t) => since_ms(now, t) >= DRAG_RENDER_INTERVAL_MS,
                None => true,
            };
            (
                InputView {
                    last_slider_apply: if apply {
                        Some(now)
                    } else {
                        v.last_slider_apply
                    },
                    last_render: if render {
                        Some(now)
                    } else {
                        v.last_render
                    },
                    ..v
                },
                when(apply, seq![EffectV::LiveSlider(s)]) + when(render, seq![EffectV::Render]),
            )
        },
        None => if hover != v.hovered {
            (InputView { hovered: hover, ..v }, seq![EffectV::Render])
        } else {
            (v, Seq::empty())
        },
    }
}

/// A key press: with the password entry open, Escape cancels it, Return
/// connects with a non-empty password (and scans again), Backspace
/// deletes and a typing key types; with it closed, Escape hides the
/// panel.
pub open spec fn key_spec(v: InputView, keycode: u8, state: u16, ctx: PanelContext, now: u64) -> (InputView, Seq<EffectV>, bool) {
    match v.entry_ssid {
        None => if keycode == KEY_ESCAPE {
            (v, seq![EffectV::Hide], true)
        } else {
            (v, Seq::empty(), false)
        },
        Some(ssid) => if keycode == KEY_ESCAPE {
            (
                InputView { entry_ssid: None, entry_text: Seq::empty(), ..v },
                seq![EffectV::UpdateHeight, EffectV::Render],
                false,
            )
        } else if keycode == 36 {
            if v.entry_text.len() > 0 {
                (
                    InputView {
                        entry_ssid: None,
                        entry_text: Seq::empty(),
                        last_wifi_scan: if ctx.has_network {
                            Some(now)
                        } else {
                            v.last_wifi_scan
                        },
                        ..v
                    },
                    when(
                        ctx.has_network,
                        seq![
                            EffectV::WifiConnectWithPassword(ssid, v.entry_text),
                            EffectV::ScanNetworks,
                        ],
                    ) + seq![EffectV::UpdateHeight, EffectV::Render],
                    false,
                )
            } else {
                (v, Seq::empty(), false)
            }
        } else if keycode == 22 {
            (
                InputView {
                    entry_text: if v.entry_text.len() > 0 {
                        v.entry_text.drop_last()
                    } else {
                        v.entry_text
                    },
                    ..v
                },
                seq![EffectV::Render],
                false,
            )
        } else {
            match keycode_char_spec(keycode, state) {
                Some(c) => (
                    InputView { entry_text: v.entry_text.push(c), ..v },
                    seq![EffectV::Render],
                    false,
                ),
                None => (v, Seq::empty(), false),
            }
        },
    }
}

/// What an event does to the input state, what it asks of the program,
/// and whether the event loop stops because the panel was hidden.
pub open spec fn event_spec(v: InputView, ev: PanelEvent, ctx: PanelContext, now: u64) -> (InputView, Seq<EffectV>, bool) {
    match ev {
        PanelEvent::Expose { ours } => (v, when(ours, seq![EffectV::Render]), false),
        PanelEvent::FocusOut { ours, mode } => if !ours {
            (v, Seq::empty(), false)
        } else if mode == FocusMode::Normal {
            if (match v.show_time {
                Some(t) => since_ms(now, t) < FOCUS_GRACE_MS,
                None => false,
            }) {
                (v, Seq::empty(), false)
            } else {
                (v, seq![EffectV::Hide], true)
            }
        } else if mode == FocusMode::Grab {
            (v, seq![EffectV::UngrabPointer], false)
        } else {
            (v, Seq::empty(), false)
        },
        PanelEvent::FocusIn { ours, mode } => (
            v,
            when(ours && mode == FocusMode::Ungrab, seq![EffectV::RegrabPointer]),
            false,
        ),
        PanelEvent::KeyPress { keycode, state } => key_spec(v, keycode, state, ctx, now),
        PanelEvent::ButtonPress { x, y, button, target } => press_spec(v, x, y, button, target, ctx, now),
        PanelEvent::ButtonRelease { ours, button } => {
            let (v1, e1) = release_spec(v, ours, button, ctx, now);
            (v1, e1, false)
        },
        PanelEvent::Motion { hover } => {
            let (v1, e1) = motion_spec(v, hover, now);
            (v1, e1, false)
        },
        PanelEvent::Other => (v, Seq::empty(), false),
    }
}

proof fn lemma_effects_push(s: Seq<Effect>, e: Effect)
    ensures
        effects_view(s.push(e)) == effects_view(s).push(effect_view(e)),
{
    assert(effects_view(s.push(e)) =~= effects_view(s).push(effect_view(e)));
}

fn emit(out: &mut Vec<Effect>, e: Effect)
    ensures
        effects_view(final(out)@) == effects_view(old(out)@) + seq![effect_view(e)],
{
    proof {
        lemma_effects_push(out@, e);
        assert(effects_view(out@).push(effect_view(e)) =~= effects_view(out@) + seq![effect_view(e)]);
    }
    out.push(e);
}

impl PanelInput {
    /// The state of a panel just made: lists closed, nothing pressed,
    /// dragged, hovered or timed yet.
    pub fn new() -> (s: Self)
        ensures
            s@ == (InputView {
                expanded: ExpandedSection::Collapsed,
                wifi_scroll_offset: 0,
                bluetooth_scroll_offset: 0,
                entry_ssid: None,
                entry_text: Seq::empty(),
                press_start: None,
                press_button: None,
                dragging: None,
                show_time: None,
                last_wifi_scan: None,
                last_slider_apply: None,
                last_render: None,
                hovered: None,
            }),
    {
        let s = PanelInput {
            expanded: ExpandedSection::Collapsed,
            wifi_scroll_offset: 0,
            bluetooth_scroll_offset: 0,
            password: PasswordEntry::new(),
            press_start: None,
            press_button: None,
            dragging: None,
            show_time: None,
            last_wifi_scan: None,
            last_slider_apply: None,
            last_render: None,
            hovered: None,
        };
        assert(s@ =~= InputView {
            expanded: ExpandedSection::Collapsed,
            wifi_scroll_offset: 0,
            bluetooth_scroll_offset: 0,
            entry_ssid: None,
            entry_text: Seq::empty(),
            press_start: None,
            press_button: None,
            dragging: None,
            show_time: None,
            last_wifi_scan: None,
            last_slider_apply: None,
            last_render: None,
            hovered: None,
        });
        s
    }

    /// Records that the panel was shown at `now` (the start of the grace
    /// period for focus loss).
    pub fn shown(&mut self, now: u64)
        ensures
            final(self)@ == (InputView { show_time: Some(now), ..old(self)@ }),
    {
        self.show_time = Some(now);
        assert(self@ =~= InputView { show_time: Some(now), ..old(self)@ });
    }

    fn hold(&mut self, b: PanelButton, ctx: &PanelContext, out: &mut Vec<Effect>)
        ensures
            final(self)@ == hold_spec(old(self)@, b, *ctx).0,
            effects_view(final(out)@) == effects_view(old(out)@) + hold_spec(old(self)@, b, *ctx).1,
    {
        let ghost o = effects_view(out@);
        match b {
            PanelButton::Wifi => {
                if ctx.has_network {
                    emit(out, Effect::SetWifiEnabled(!ctx.wifi_enabled));
                    emit(out, Effect::UpdateHeight);
                    self.expanded = ExpandedSection::Collapsed;
                }
            },
            PanelButton::Bluetooth => {
                if ctx.has_bluetooth {
                    emit(out, Effect::SetBluetoothPowered(!ctx.bluetooth_powered));
                    emit(out, Effect::UpdateHeight);
                    self.expanded = ExpandedSection::Collapsed;
                }
            },
            _ => {},
        }
        assert(effects_view(out@) =~= o + hold_spec(old(self)@, b, *ctx).1);
        assert(self@ =~= hold_spec(old(self)@, b, *ctx).0);
    }

    fn click(&mut self, b: PanelButton, ctx: &PanelContext, now: u64, out: &mut Vec<Effect>)
        ensures
            final(self)@ == click_spec(old(self)@, b, *ctx, now).0,
            effects_view(final(out)@) == effects_view(old(out)@) + click_spec(old(self)@, b, *ctx, now).1,
    {
        let ghost o = effects_view(out@);
        match b {
            PanelButton::Wifi => {
                if self.expanded == ExpandedSection::WiFi {
                    self.expanded = ExpandedSection::Collapsed;
                    self.wifi_scroll_offset = 0;
                    emit(out, Effect::UpdateHeight);
                } else {
                    self.expanded = ExpandedSection::WiFi;
                    if ctx.has_network {
                        emit(out, Effect::SetScanning);
                    }
                    emit(out, Effect::UpdateHeight);
                    emit(out, Effect::Render);
                    emit(out, Effect::Flush);
                    if ctx.has_network {
                        emit(out, Effect::ScanNetworks);
                        self.last_wifi_scan = Some(now);
                    }
                    emit(out, Effect::UpdateHeight);
                }
            },
            PanelButton::Bluetooth => {
                if self.expanded == ExpandedSection::Bluetooth {
                    self.expanded = ExpandedSection::Collapsed;
                    self.bluetooth_scroll_offset = 0;
                    emit(out, Effect::UpdateHeight);
                } else {
                    self.expanded = ExpandedSection::Bluetooth;
                    emit(out, Effect::UpdateHeight);
                    emit(out, Effect::Render);
                    emit(out, Effect::Flush);
                    if ctx.has_bluetooth {
                        emit(out, Effect::ScanDevices);
                    }
                    emit(out, Effect::UpdateHeight);
                }
            },
            _ => {},
        }
        assert(effects_view(out@) =~= o + click_spec(old(self)@, b, *ctx, now).1);
        assert(self@ =~= click_spec(old(self)@, b, *ctx, now).0);
    }

    fn toggle(b: PanelButton, ctx: &PanelContext, out: &mut Vec<Effect>)
        ensures
            effects_view(final(out)@) == effects_view(old(out)@) + toggle_spec(b, *ctx),
    {
        let ghost o = effects_view(out@);
        match b {
            PanelButton::Shutdown => {
                if ctx.has_power {
                    emit(out, Effect::Power(PowerAction::Shutdown));
                }
            },
            PanelButton::Restart => {
                if ctx.has_power {
                    emit(out, Effect::Power(PowerAction::Reboot));
                }
            },
            PanelButton::Logout => {
                if ctx.has_power {
                    emit(out, Effect::Logout);
                }
            },
            PanelButton::Hibernate => {
                if ctx.has_power {
                    emit(out, Effect::Power(PowerAction::Hibernate));
                }
            },
            PanelButton::Dnd => {
                if ctx.has_dnd {
                    emit(out, Effect::ToggleDnd);
                }
            },
            _ => {},
        }
        assert(effects_view(out@) =~= o + toggle_spec(b, *ctx));
    }

    fn list_item(&mut self, id: String, needs_password: bool, ctx: &PanelContext, now: u64, out: &mut Vec<Effect>)
        ensures
            final(self)@ == list_item_spec(old(self)@, id@, needs_password, *ctx, now).0,
            effects_view(final(out)@) == effects_view(old(out)@) + list_item_spec(
                old(self)@,
                id@,
                needs_password,
                *ctx,
                now,
            ).1,
    {
        let ghost o = effects_view(out@);
        let ghost idv = id@;
        match self.expanded {
            ExpandedSection::WiFi => {
                if ctx.has_network {
                    let connected_ssid = match &ctx.connected_ssid {
                        Some(c) => Some(c.as_str()),
                        None => None,
                    };
                    match wifi_row_action(connected_ssid, id.as_str(), needs_password) {
                        WifiRowAction::Disconnect => {
                            emit(out, Effect::WifiDisconnect);
                            emit(out, Effect::ScanNetworks);
                            self.last_wifi_scan = Some(now);
                        },
                        WifiRowAction::AskPassword => {
                            self.password.open(id);
                            emit(out, Effect::UpdateHeight);
                            emit(out, Effect::Render);
                        },
                        WifiRowAction::Connect => {
                            emit(out, Effect::WifiConnect(id));
                            emit(out, Effect::ScanNetworks);
                            self.last_wifi_scan = Some(now);
                        },
                    }
                }
            },
            ExpandedSection::Bluetooth => {
                if ctx.has_bluetooth {
                    match device_row_action(&ctx.devices, id.as_str()) {
                        DeviceRowAction::Disconnect => emit(out, Effect::DeviceDisconnect(id)),
                        DeviceRowAction::Connect => emit(out, Effect::DeviceConnect(id)),
                        DeviceRowAction::Unknown => {},
                    }
                    emit(out, Effect::ScanDevices);
                }
            },
            ExpandedSection::Collapsed => {},
        }
        assert(effects_view(out@) =~= o + list_item_spec(old(self)@, idv, needs_password, *ctx, now).1);
        assert(self@ =~= list_item_spec(old(self)@, idv, needs_password, *ctx, now).0);
    }

    /// What the passing of time does (see `tick_spec`).
    pub fn tick(&mut self, now: u64, ctx: &PanelContext) -> (effects: Vec<Effect>)
        ensures
            (final(self)@, effects_view(effects@)) == tick_spec(old(self)@, now, *ctx),
    {
        let mut out: Vec<Effect> = Vec::new();
        let ghost v = self@;
        if let Some(ps) = self.press_start {
            if elapsed_ms(now, ps) >= HOLD_THRESHOLD_MS {
                if let Some(b) = self.press_button {
                    self.press_button = None;
                    self.press_start = None;
                    let ghost v0 = self@;
                    assert(v0 =~= InputView { press_start: None, press_button: None, ..v });
                    self.hold(b, ctx, &mut out);
                    emit(&mut out, Effect::Render);
                }
            }
        }
        let ghost v1 = self@;
        let ghost e1 = effects_view(out@);
        assert(e1 =~= Seq::<EffectV>::empty() + e1);
        assert((v1, e1) == ({
            let (a, b) = match v.press_start {
                Some(ps) => if since_ms(now, ps) >= HOLD_THRESHOLD_MS {
                    match v.press_button {
                        Some(b) => {
                            let v0 = InputView { press_start: None, press_button: None, ..v };
                            let (vh, eh) = hold_spec(v0, b, *ctx);
                            (vh, eh + seq![EffectV::Render])
                        },
                        None => (v, Seq::empty()),
                    }
                } else {
                    (v, Seq::empty())
                },
                None => (v, Seq::empty()),
            };
            (a, b)
        }));
        if self.expanded == ExpandedSection::WiFi && ctx.has_network && due(
            self.last_wifi_scan,
            now,
            WIFI_REFRESH_INTERVAL_MS,
        ) {
            emit(&mut out, Effect::ScanNetworks);
            emit(&mut out, Effect::Render);
            self.last_wifi_scan = Some(now);
            assert(effects_view(out@) =~= e1 + seq![EffectV::ScanNetworks, EffectV::Render]);
            assert(self@ =~= InputView { last_wifi_scan: Some(now), ..v1 });
        }
        out
    }
}

/// A press on WiFi or Bluetooth that became a hold is not also a click:
/// once the hold fired, the release asks for nothing (unless a slider was
/// being dragged).
pub proof fn law_hold_is_not_a_click(v: InputView, now: u64, later: u64, ctx: PanelContext)
    requires
        v.press_start is Some,
        v.press_button is Some,
        since_ms(now, v.press_start->0) >= HOLD_THRESHOLD_MS,
        v.dragging is None,
    ensures
        release_spec(tick_spec(v, now, ctx).0, true, 1, ctx, later).1 == Seq::<EffectV>::empty(),
{
}

/// Two short clicks on the WiFi button open and close its list: the list
/// is open afterwards exactly when it was open before.
pub proof fn law_wifi_click_twice(v: InputView, ctx: PanelContext, t1: u64, t2: u64)
    ensures
        (click_spec(click_spec(v, PanelButton::Wifi, ctx, t1).0, PanelButton::Wifi, ctx, t2).0.expanded
            == ExpandedSection::WiFi) == (v.expanded == ExpandedSection::WiFi),
{
}

/// Two short clicks on the Bluetooth button open and close its list.
pub proof fn law_bluetooth_click_twice(v: InputView, ctx: PanelContext, t1: u64, t2: u64)
    ensures
        (click_spec(
            click_spec(v, PanelButton::Bluetooth, ctx, t1).0,
            PanelButton::Bluetooth,
            ctx,
            t2,
        ).0.expanded == ExpandedSection::Bluetooth) == (v.expanded == ExpandedSection::Bluetooth),
{
}

/// A press outside the panel hides it and changes nothing else.
pub proof fn law_press_outside_hides(v: InputView, x: i32, y: i32, button: u8, target: PressTarget, ctx: PanelContext, now: u64)
    requires
        x < 0 || y < 0 || x >= ctx.width || y >= ctx.height,
    ensures
        press_spec(v, x, y, button, target, ctx, now) == (v, seq![EffectV::Hide], true),
{
}

/// A left press inside the panel on a power button asks, when the power
/// module is there, for exactly the action the button is named for and
/// then a redraw: Shutdown shuts down, Restart reboots, Hibernate
/// hibernates, Logout logs out; so no two of these buttons ask for the
/// same thing. Without the power module they only redraw.
pub proof fn law_power_buttons_do_what_they_say(v: InputView, x: i32, y: i32, ctx: PanelContext, now: u64)
    requires
        0 <= x < ctx.width,
        0 <= y < ctx.height,
    ensures
        ctx.has_power ==> event_spec(
            v,
            PanelEvent::ButtonPress { x, y, button: 1, target: PressTarget::Button(PanelButton::Shutdown) },
            ctx,
            now,
        ).1 == seq![EffectV::Power(PowerAction::Shutdown), EffectV::Render],
        ctx.has_power ==> event_spec(
            v,
            PanelEvent::ButtonPress { x, y, button: 1, target: PressTarget::Button(PanelButton::Restart) },
            ctx,
            now,
        ).1 == seq![EffectV::Power(PowerAction::Reboot), EffectV::Render],
        ctx.has_power ==> event_spec(
            v,
            PanelEvent::ButtonPress { x, y, button: 1, target: PressTarget::Button(PanelButton::Hibernate) },
            ctx,
            now,
        ).1 == seq![EffectV::Power(PowerAction::Hibernate), EffectV::Render],
        ctx.has_power ==> event_spec(
            v,
            PanelEvent::ButtonPress { x, y, button: 1, target: PressTarget::Button(PanelButton::Logout) },
            ctx,
            now,
        ).1 == seq![EffectV::Logout, EffectV::Render],
        !ctx.has_power ==> event_spec(
            v,
            PanelEvent::ButtonPress { x, y, button: 1, target: PressTarget::Button(PanelButton::Restart) },
            ctx,
            now,
        ).1 == seq![EffectV::Render],
{
    assert(Seq::<EffectV>::empty() + seq![EffectV::Power(PowerAction::Shutdown)] + seq![EffectV::Render]
        =~= seq![EffectV::Power(PowerAction::Shutdown), EffectV::Render]);
    assert(Seq::<EffectV>::empty() + seq![EffectV::Power(PowerAction::Reboot)] + seq![EffectV::Render]
        =~= seq![EffectV::Power(PowerAction::Reboot), EffectV::Render]);
    assert(Seq::<EffectV>::empty() + seq![EffectV::Power(PowerAction::Hibernate)] + seq![EffectV::Render]
        =~= seq![EffectV::Power(PowerAction::Hibernate), EffectV::Render]);
    assert(Seq::<EffectV>::empty() + seq![EffectV::Logout] + seq![EffectV::Render] =~= seq![
        EffectV::Logout,
        EffectV::Render,
    ]);
    assert(Seq::<EffectV>::empty() + Seq::<EffectV>::empty() + seq![EffectV::Render] =~= seq![
        EffectV::Render,
    ]);
}

/// A left press inside the panel on the DND button toggles Do Not
/// Disturb (with the DND module), and one on the speaker icon toggles the
/// mute (with the volume module); either then redraws, and neither asks
/// for anything else.
pub proof fn law_dnd_and_mute_presses(v: InputView, x: i32, y: i32, ctx: PanelContext, now: u64)
    requires
        0 <= x < ctx.width,
        0 <= y < ctx.height,
    ensures
        ctx.has_dnd ==> event_spec(
            v,
            PanelEvent::ButtonPress { x, y, button: 1, target: PressTarget::Button(PanelButton::Dnd) },
            ctx,
            now,
        ).1 == seq![EffectV::ToggleDnd, EffectV::Render],
        ctx.has_volume ==> event_spec(
            v,
            PanelEvent::ButtonPress { x, y, button: 1, target: PressTarget::MuteIcon },
            ctx,
            now,
        ).1 == seq![EffectV::ToggleMute, EffectV::Render],
{
    assert(Seq::<EffectV>::empty() + seq![EffectV::ToggleDnd] + seq![EffectV::Render] =~= seq![
        EffectV::ToggleDnd,
        EffectV::Render,
    ]);
    assert(Seq::<EffectV>::empty() + seq![EffectV::ToggleMute] + seq![EffectV::Render] =~= seq![
        EffectV::ToggleMute,
        EffectV::Render,
    ]);
}

/// The input state after a run of wheel presses at (x, y) that hit
/// nothing, one event per button in `buttons`, in order.
pub open spec fn wheel_run(v: InputView, ctx: PanelContext, x: i32, y: i32, buttons: Seq<u8>, now: u64) -> InputView
    decreases buttons.len(),
{
    if buttons.len() == 0 {
        v
    } else {
        let ev = PanelEvent::ButtonPress { x, y, button: buttons[0], target: PressTarget::Nothing };
        wheel_run(event_spec(v, ev, ctx, now).0, ctx, x, y, buttons.drop_first(), now)
    }
}

/// The scroll offset after a run of wheel presses: a press down (5) adds
/// one unless the offset is at `max`, a press up (4) takes one away unless
/// it is at zero; other buttons leave it.
pub open spec fn wheel_offset(offset: nat, max: nat, buttons: Seq<u8>) -> nat
    decreases buttons.len(),
{
    if buttons.len() == 0 {
        offset
    } else {
        let next: nat = if buttons[0] == 5 {
            if offset < max {
                offset + 1
            } else {
                offset
            }
        } else if buttons[0] == 4 {
            if offset > 0 {
                (offset - 1) as nat
            } else {
                offset
            }
        } else {
            offset
        };
        wheel_offset(next, max, buttons.drop_first())
    }
}

/// However many wheel presses come inside the panel, in whatever order,
/// on an open WiFi list that stays the same length, the offset moves one
/// step per press as `wheel_offset` says, so it never leaves its bounds:
/// never below zero (a press up at the top does nothing), never past the
/// last page (a press down there does nothing); and the list stays open.
pub proof fn law_wheel_run_stays_in_bounds(
    v: InputView,
    ctx: PanelContext,
    x: i32,
    y: i32,
    buttons: Seq<u8>,
    now: u64,
)
    requires
        v.expanded == ExpandedSection::WiFi,
        v.wifi_scroll_offset <= max_scroll(ctx.network_count as nat, WIFI_MAX_VISIBLE as nat),
        0 <= x < ctx.width,
        0 <= y < ctx.height,
        forall|k: int| 0 <= k < buttons.len() ==> #[trigger] buttons[k] == 4 || buttons[k] == 5,
    ensures
        wheel_run(v, ctx, x, y, buttons, now).expanded == ExpandedSection::WiFi,
        wheel_run(v, ctx, x, y, buttons, now).wifi_scroll_offset <= max_scroll(
            ctx.network_count as nat,
            WIFI_MAX_VISIBLE as nat,
        ),
        wheel_run(v, ctx, x, y, buttons, now).wifi_scroll_offset == wheel_offset(
            v.wifi_scroll_offset as nat,
            max_scroll(ctx.network_count as nat, WIFI_MAX_VISIBLE as nat),
            buttons,
        ),
    decreases buttons.len(),
{
    if buttons.len() > 0 {
        let ev = PanelEvent::ButtonPress { x, y, button: buttons[0], target: PressTarget::Nothing };
        let v1 = event_spec(v, ev, ctx, now).0;
        assert(buttons[0] == 4 || buttons[0] == 5);
        assert(v1.expanded == ExpandedSection::WiFi);
        assert(v1.wifi_scroll_offset <= max_scroll(ctx.network_count as nat, WIFI_MAX_VISIBLE as nat));
        assert forall|k: int| 0 <= k < buttons.drop_first().len() implies #[trigger] buttons.drop_first()[k]
            == 4 || buttons.drop_first()[k] == 5 by {
            assert(buttons.drop_first()[k] == buttons[k + 1]);
        }
        law_wheel_run_stays_in_bounds(v1, ctx, x, y, buttons.drop_first(), now);
    }
}

impl PanelInput {
    fn key(&mut self, keycode: u8, state: u16, ctx: &PanelContext, now: u64, out: &mut Vec<Effect>) -> (stop: bool)
        ensures
            final(self)@ == key_spec(old(self)@, keycode, state, *ctx, now).0,
            effects_view(final(out)@) == effects_view(old(out)@) + key_spec(
                old(self)@,
                keycode,
                state,
                *ctx,
                now,
            ).1,
            stop == key_spec(old(self)@, keycode, state, *ctx, now).2,
    {
        let ghost o = effects_view(out@);
        let ghost v = self@;
        let outcome = self.password.handle_key(keycode, state);
        let stop = match outcome {
            KeyOutcome::Nothing => false,
            KeyOutcome::Render => {
                emit(out, Effect::Render);
                false
            },
            KeyOutcome::EntryCancelled => {
                emit(out, Effect::UpdateHeight);
                emit(out, Effect::Render);
                false
            },
            KeyOutcome::Submit { ssid, password } => {
                if ctx.has_network {
                    emit(out, Effect::WifiConnectWithPassword { ssid, password });
                    emit(out, Effect::ScanNetworks);
                    self.last_wifi_scan = Some(now);
                }
                emit(out, Effect::UpdateHeight);
                emit(out, Effect::Render);
                false
            },
            KeyOutcome::HidePanel => {
                emit(out, Effect::Hide);
                true
            },
        };
        assert(effects_view(out@) =~= o + key_spec(v, keycode, state, *ctx, now).1);
        assert(self@ =~= key_spec(v, keycode, state, *ctx, now).0);
        stop
    }

    fn scroll(&mut self, button: u8, ctx: &PanelContext, out: &mut Vec<Effect>)
        requires
            button == 4 || button == 5,
        ensures
            ({
                let (v1, e1) = if button == 4 {
                    match old(self)@.expanded {
                        ExpandedSection::WiFi => if old(self)@.wifi_scroll_offset > 0 {
                            (
                                InputView {
                                    wifi_scroll_offset: (old(self)@.wifi_scroll_offset - 1) as usize,
                                    ..old(self)@
                                },
                                seq![EffectV::Render],
                            )
                        } else {
                            (old(self)@, Seq::empty())
                        },
                        ExpandedSection::Bluetooth => if old(self)@.bluetooth_scroll_offset > 0 {
                            (
                                InputView {
                                    bluetooth_scroll_offset: (old(self)@.bluetooth_scroll_offset
                                        - 1) as usize,
                                    ..old(self)@
                                },
                                seq![EffectV::Render],
                            )
                        } else {
                            (old(self)@, Seq::empty())
                        },
                        ExpandedSection::Collapsed => (old(self)@, Seq::empty()),
                    }
                } else {
                    match old(self)@.expanded {
                        ExpandedSection::WiFi => if old(self)@.wifi_scroll_offset < max_scroll(
                            ctx.network_count as nat,
                            WIFI_MAX_VISIBLE as nat,
                        ) {
                            (
                                InputView {
                                    wifi_scroll_offset: (old(self)@.wifi_scroll_offset + 1) as usize,
                                    ..old(self)@
                                },
                                seq![EffectV::Render],
                            )
                        } else {
                            (old(self)@, Seq::empty())
                        },
                        ExpandedSection::Bluetooth => if old(self)@.bluetooth_scroll_offset
                            < max_scroll(ctx.device_count as nat, BLUETOOTH_MAX_VISIBLE as nat) {
                            (
                                InputView {
                                    bluetooth_scroll_offset: (old(self)@.bluetooth_scroll_offset
                                        + 1) as usize,
                                    ..old(self)@
                                },
                                seq![EffectV::Render],
                            )
                        } else {
                            (old(self)@, Seq::empty())
                        },
                        ExpandedSection::Collapsed => (old(self)@, Seq::empty()),
                    }
                };
                &&& final(self)@ == v1
                &&& effects_view(final(out)@) == effects_view(old(out)@) + e1
            }),
    {
        let ghost o = effects_view(out@);
        let ghost v = self@;
        if button == 4 {
            match self.expanded {
                ExpandedSection::WiFi => {
                    let (off, moved) = scroll_up(self.wifi_scroll_offset);
                    if moved {
                        self.wifi_scroll_offset = off;
                        emit(out, Effect::Render);
                    }
                },
                ExpandedSection::Bluetooth => {
                    let (off, moved) = scroll_up(self.bluetooth_scroll_offset);
                    if moved {
                        self.bluetooth_scroll_offset = off;
                        emit(out, Effect::Render);
                    }
                },
                ExpandedSection::Collapsed => {},
            }
        } else {
            match self.expanded {
                ExpandedSection::WiFi => {
                    let (off, moved) = scroll_down(
                        self.wifi_scroll_offset,
                        ctx.network_count,
                        WIFI_MAX_VISIBLE as usize,
                    );
                    if moved {
                        self.wifi_scroll_offset = off;
                        emit(out, Effect::Render);
                    }
                },
                ExpandedSection::Bluetooth => {
                    let (off, moved) = scroll_down(
                        self.bluetooth_scroll_offset,
                        ctx.device_count,
                        BLUETOOTH_MAX_VISIBLE as usize,
                    );
                    if moved {
                        self.bluetooth_scroll_offset = off;
                        emit(out, Effect::Render);
                    }
                },
                ExpandedSection::Collapsed => {},
            }
        }
        proof {
            if effects_view(out@).len() == o.len() {
                assert(effects_view(out@) =~= o + Seq::<EffectV>::empty());
            }
        }
    }

    fn press(&mut self, x: i32, y: i32, button: u8, target: PressTarget, ctx: &PanelContext, now: u64, out: &mut Vec<Effect>) -> (stop: bool)
        requires
            ctx.width <= i32::MAX,
            ctx.height <= i32::MAX,
        ensures
            final(self)@ == press_spec(old(self)@, x, y, button, target, *ctx, now).0,
            effects_view(final(out)@) == effects_view(old(out)@) + press_spec(
                old(self)@,
                x,
                y,
                button,
                target,
                *ctx,
                now,
            ).1,
            stop == press_spec(old(self)@, x, y, button, target, *ctx, now).2,
    {
        let ghost o = effects_view(out@);
        let ghost v = self@;
        let ghost t = target;
        if click_outside(x, y, ctx.width, ctx.height) {
            emit(out, Effect::Hide);
            return true;
        }
        if button == 4 || button == 5 {
            self.scroll(button, ctx, out);
        }
        let ghost v1 = self@;
        let ghost e1 = effects_view(out@).subrange(o.len() as int, effects_view(out@).len() as int);
        assert(effects_view(out@) =~= o + e1);
        if button == 1 {
            self.press_start = None;
            self.press_button = None;
            let ghost v2 = self@;
            assert(v2 =~= InputView { press_start: None, press_button: None, ..v1 });
            match target {
                PressTarget::Button(b) => {
                    if starts_hold(b) {
                        self.press_start = Some(now);
                        self.press_button = Some(b);
                    } else {
                        Self::toggle(b, ctx, out);
                        emit(out, Effect::Render);
                    }
                },
                PressTarget::ListItem { id, needs_password } => {
                    self.list_item(id, needs_password, ctx, now, out);
                    emit(out, Effect::Render);
                },
                PressTarget::MuteIcon => {
                    if ctx.has_volume {
                        emit(out, Effect::ToggleMute);
                    }
                    emit(out, Effect::Render);
                },
                PressTarget::Slider(s) => {
                    self.dragging = Some(s);
                    emit(out, Effect::Render);
                },
                PressTarget::Nothing => {},
            }
            assert(effects_view(out@) =~= o + press_spec(v, x, y, button, t, *ctx, now).1);
            assert(self@ =~= press_spec(v, x, y, button, t, *ctx, now).0);
        }
        false
    }

    fn release(&mut self, ours: bool, button: u8, ctx: &PanelContext, now: u64, out: &mut Vec<Effect>)
        ensures
            final(self)@ == release_spec(old(self)@, ours, button, *ctx, now).0,
            effects_view(final(out)@) == effects_view(old(out)@) + release_spec(
                old(self)@,
                ours,
                button,
                *ctx,
                now,
            ).1,
    {
        let ghost o = effects_view(out@);
        let ghost v = self@;
        if !(ours && button == 1) {
            assert(effects_view(out@) =~= o + Seq::<EffectV>::empty());
            return;
        }
        if let Some(ps) = self.press_start {
            let held = self.press_button;
            self.press_start = None;
            self.press_button = None;
            if let Some(b) = held {
                if elapsed_ms(now, ps) < HOLD_THRESHOLD_MS {
                    self.click(b, ctx, now, out);
                    emit(out, Effect::Render);
                }
            }
        }
        let ghost v1 = self@;
        let ghost e1 = effects_view(out@).subrange(o.len() as int, effects_view(out@).len() as int);
        assert(effects_view(out@) =~= o + e1);
        if let Some(s) = self.dragging {
            self.dragging = None;
            emit(out, Effect::ApplySlider(s));
            emit(out, Effect::Render);
            self.last_slider_apply = None;
            self.last_render = None;
        }
        assert(effects_view(out@) =~= o + release_spec(v, ours, button, *ctx, now).1);
        assert(self@ =~= release_spec(v, ours, button, *ctx, now).0);
    }

    fn motion(&mut self, hover: Option<PanelButton>, now: u64, out: &mut Vec<Effect>)
        ensures
            final(self)@ == motion_spec(old(self)@, hover, now).0,
            effects_view(final(out)@) == effects_view(old(out)@) + motion_spec(old(self)@, hover, now).1,
    {
        let ghost o = effects_view(out@);
        let ghost v = self@;
        match self.dragging {
            Some(s) => {
                let apply = due(self.last_slider_apply, now, SLIDER_APPLY_INTERVAL_MS);
                let render = due(self.last_render, now, DRAG_RENDER_INTERVAL_MS);
                if apply {
                    emit(out, Effect::LiveSlider(s));
                    self.last_slider_apply = Some(now);
                }
                if render {
                    emit(out, Effect::Render);
                    self.last_render = Some(now);
                }
            },
            None => {
                if hover != self.hovered {
                    self.hovered = hover;
                    emit(out, Effect::Render);
                }
            },
        }
        assert(effects_view(out@) =~= o + motion_spec(v, hover, now).1);
        assert(self@ =~= motion_spec(v, hover, now).0);
    }

    /// What an event does (see `event_spec`). Returns the effects, in
    /// order, and whether the event loop stops because the panel was
    /// hidden.
    pub fn handle_event(&mut self, ev: PanelEvent, now: u64, ctx: &PanelContext) -> (r: (Vec<Effect>, bool))
        requires
            ctx.width <= i32::MAX,
            ctx.height <= i32::MAX,
        ensures
            (final(self)@, effects_view(r.0@), r.1) == event_spec(old(self)@, ev, *ctx, now),
    {
        let ghost v = self@;
        let ghost e = ev;
        let mut out: Vec<Effect> = Vec::new();
        assert(effects_view(out@) =~= Seq::<EffectV>::empty());
        let stop = match ev {
            PanelEvent::Expose { ours } => {
                if ours {
                    emit(&mut out, Effect::Render);
                }
                false
            },
            PanelEvent::FocusOut { ours, mode } => {
                if !ours {
                    false
                } else if mode == FocusMode::Normal {
                    let in_grace = match self.show_time {
                        Some(t) => elapsed_ms(now, t) < FOCUS_GRACE_MS,
                        None => false,
                    };
                    if in_grace {
                        false
                    } else {
                        emit(&mut out, Effect::Hide);
                        true
                    }
                } else if mode == FocusMode::Grab {
                    emit(&mut out, Effect::UngrabPointer);
                    false
                } else {
                    false
                }
            },
            PanelEvent::FocusIn { ours, mode } => {
                if ours && mode == FocusMode::Ungrab {
                    emit(&mut out, Effect::RegrabPointer);
                }
                false
            },
            PanelEvent::KeyPress { keycode, state } => self.key(keycode, state, ctx, now, &mut out),
            PanelEvent::ButtonPress { x, y, button, target } => self.press(
                x,
                y,
                button,
                target,
                ctx,
                now,
                &mut out,
            ),
            PanelEvent::ButtonRelease { ours, button } => {
                self.release(ours, button, ctx, now, &mut out);
                false
            },
            PanelEvent::Motion { hover } => {
                self.motion(hover, now, &mut out);
                false
            },
            PanelEvent::Other => false,
        };
        proof {
            let sp = event_spec(v, e, *ctx, now);
            assert(effects_view(out@) =~= sp.1);
            assert(self@ =~= sp.0);
        }
        (out, stop)
    }
}

} // verus!
