//! The quick settings popup's decisions: its height for an expanded list,
//! where it opens, which part of a list shows, the keyboard of the
//! password entry, what the buttons and list rows do, and the timing rules
//! (hold, debounce, throttling).
//!
//! Drawing, hit testing on drawn shapes and the X11 window live with the
//! program; they hand these functions plain values.

use vstd::prelude::*;
use vstd::string::*;
use crate::text::{byte_len, dec_nat, push_char, str_byte_len, str_eq, u64_to_string};
use crate::panel::bluetooth::BluetoothDevice;

verus! {

// ---------------------------------------------------------------------
// Sections and height
// ---------------------------------------------------------------------

/// Expansion state for picker sections.
#[derive(Debug, Clone, Copy, PartialEq, Eq, Structural)]
pub enum ExpandedSection {
    Collapsed,
    WiFi,
    Bluetooth,
}

/// Height of a list row.
pub const LIST_ITEM_HEIGHT: u32 = 32;
/// Rows of the WiFi list shown at once.
pub const WIFI_MAX_VISIBLE: u32 = 3;
/// Rows of the Bluetooth list shown at once.
pub const BLUETOOTH_MAX_VISIBLE: u32 = 5;
/// Height of a scroll indicator.
pub const SCROLL_INDICATOR_HEIGHT: u32 = 16;
/// Height of the hint under the WiFi list.
pub const HINT_HEIGHT: u32 = 20;
/// Padding under an expanded list.
pub const LIST_PADDING: u32 = 8;
/// Height of the panel with no list expanded.
pub const BASE_HEIGHT: u32 = 360;

/// Extra height for the expanded section with `count` entries: at least
/// one row (room for "no networks"), at most the visible rows, two scroll
/// indicators when the list scrolls, the hint for WiFi, and padding.
pub open spec fn expansion_height_spec(section: ExpandedSection, count: nat) -> nat {
    match section {
        ExpandedSection::Collapsed => 0,
        ExpandedSection::WiFi => {
            let visible = if count == 0 {
                1
            } else if count > WIFI_MAX_VISIBLE {
                WIFI_MAX_VISIBLE as nat
            } else {
                count
            };
            let scroll = if count > WIFI_MAX_VISIBLE {
                SCROLL_INDICATOR_HEIGHT * 2
            } else {
                0
            };
            (visible * LIST_ITEM_HEIGHT + scroll + HINT_HEIGHT + LIST_PADDING) as nat
        },
        ExpandedSection::Bluetooth => {
            let visible = if count == 0 {
                1
            } else if count > BLUETOOTH_MAX_VISIBLE {
                BLUETOOTH_MAX_VISIBLE as nat
            } else {
                count
            };
            let scroll = if count > BLUETOOTH_MAX_VISIBLE {
                SCROLL_INDICATOR_HEIGHT * 2
            } else {
                0
            };
            (visible * LIST_ITEM_HEIGHT + scroll + LIST_PADDING) as nat
        },
    }
}

/// Extra height the expanded section takes for a list of `count` entries.
pub fn expansion_height(section: ExpandedSection, count: usize) -> (h: u32)
    requires
        count <= u32::MAX,
    ensures
        h == expansion_height_spec(section, count as nat),
{
    let count = count as u32;
    match section {
        ExpandedSection::Collapsed => 0,
        ExpandedSection::WiFi => {
            let capped = if count < WIFI_MAX_VISIBLE {
                count
            } else {
                WIFI_MAX_VISIBLE
            };
            let visible = if capped > 1 {
                capped
            } else {
                1
            };
            let mut height = visible * LIST_ITEM_HEIGHT;
            if count > WIFI_MAX_VISIBLE {
                height = height + SCROLL_INDICATOR_HEIGHT * 2;
            }
            height + HINT_HEIGHT + LIST_PADDING
        },
        ExpandedSection::Bluetooth => {
            let capped = if count < BLUETOOTH_MAX_VISIBLE {
                count
            } else {
                BLUETOOTH_MAX_VISIBLE
            };
            let visible = if capped > 1 {
                capped
            } else {
                1
            };
            let mut height = visible * LIST_ITEM_HEIGHT;
            if count > BLUETOOTH_MAX_VISIBLE {
                height = height + SCROLL_INDICATOR_HEIGHT * 2;
            }
            height + LIST_PADDING
        },
    }
}

/// The panel's height: the base height plus the expanded section's.
pub fn panel_height(base_height: u32, section: ExpandedSection, count: usize) -> (h: u32)
    requires
        count <= u32::MAX,
        base_height + expansion_height_spec(section, count as nat) <= u32::MAX,
    ensures
        h == base_height + expansion_height_spec(section, count as nat),
{
    base_height + expansion_height(section, count)
}

// ---------------------------------------------------------------------
// Placement
// ---------------------------------------------------------------------

/// Monitor information.
#[derive(Debug, Clone, Copy, PartialEq, Eq, Structural)]
pub struct MonitorInfo {
    pub x: i32,
    pub y: i32,
    pub width: u32,
    pub height: u32,
}

/// Whether monitor `m` spans column `x`.
pub open spec fn monitor_spans(m: MonitorInfo, x: int) -> bool {
    m.x <= x < m.x + m.width
}

/// The first monitor that spans column `x`.
pub fn find_monitor_at(monitors: &Vec<MonitorInfo>, x: i32, y: i32) -> (r: Option<MonitorInfo>)
    requires
        forall|i: int|
            0 <= i < monitors@.len() ==> (#[trigger] monitors@[i]).width <= i32::MAX
                && monitors@[i].x + monitors@[i].width <= i32::MAX,
    ensures
        match r {
            Some(m) => exists|i: int|
                0 <= i < monitors@.len() && monitors@[i] == m && monitor_spans(m, x as int)
                    && forall|j: int| 0 <= j < i ==> !monitor_spans(#[trigger] monitors@[j], x as int),
            None => forall|j: int|
                0 <= j < monitors@.len() ==> !monitor_spans(#[trigger] monitors@[j], x as int),
        },
{
    let n = monitors.len();
    let mut i: usize = 0;
    while i < n
        invariant
            n == monitors@.len(),
            i <= n,
            forall|k: int|
                0 <= k < monitors@.len() ==> (#[trigger] monitors@[k]).width <= i32::MAX
                    && monitors@[k].x + monitors@[k].width <= i32::MAX,
            forall|j: int| 0 <= j < i ==> !monitor_spans(#[trigger] monitors@[j], x as int),
        decreases n - i,
    {
        let m = monitors[i];
        assert(m.width <= i32::MAX && m.x + m.width <= i32::MAX);
        if x >= m.x && x < m.x + m.width as i32 {
            return Some(m);
        }
        i = i + 1;
    }
    None
}

/// `a.max(lo).min(hi)`.
pub open spec fn max_then_min(a: int, lo: int, hi: int) -> int {
    let m = if a >= lo {
        a
    } else {
        lo
    };
    if m <= hi {
        m
    } else {
        hi
    }
}

/// Where the panel opens for a request at (x, y). At (0, 0) (the control
/// client's default) it goes to the top right corner below a bar.
/// Otherwise, on the monitor of the click, it aligns with that monitor's
/// right edge and opens below a click near the monitor's top, above one
/// near the screen's bottom, below one elsewhere, kept on screen
/// vertically. Without a monitor it aligns with the screen's right edge.
pub open spec fn panel_position_spec(
    x: int,
    y: int,
    width: int,
    height: int,
    screen_width: int,
    screen_height: int,
    monitor: Option<MonitorInfo>,
) -> (int, int) {
    if x == 0 && y == 0 {
        (screen_width - width - 16, 40)
    } else {
        match monitor {
            Some(mon) => {
                let px = mon.x + mon.width - width - 8;
                let py = if y < mon.y + 100 {
                    y + 8
                } else if y > screen_height - 100 {
                    y - height - 8
                } else {
                    y + 8
                };
                (px, max_then_min(py, 8, screen_height - height - 8))
            },
            None => {
                let px = screen_width - width - 8;
                (
                    if px >= 8 {
                        px
                    } else {
                        8
                    },
                    max_then_min(y + 8, 8, screen_height - height - 8),
                )
            },
        }
    }
}

/// The arithmetic of the placement stays within `i32`.
pub open spec fn placement_fits(
    y: int,
    width: int,
    height: int,
    screen_width: int,
    screen_height: int,
    monitor: Option<MonitorInfo>,
) -> bool {
    let small = |v: int| i32::MIN <= v <= i32::MAX;
    &&& small(screen_width - width - 16)
    &&& small(screen_height - height - 8)
    &&& small(screen_height - 100)
    &&& small(y + 8)
    &&& small(y - height - 8)
    &&& (monitor matches Some(mon) ==> small(mon.x + mon.width) && small(mon.x + mon.width - width - 8) && small(mon.y + 100))
}

/// Where the panel opens for a request at (x, y).
pub fn panel_position(
    x: i32,
    y: i32,
    width: u32,
    height: u32,
    screen_width: i32,
    screen_height: i32,
    monitor: Option<MonitorInfo>,
) -> (r: (i32, i32))
    requires
        width <= i32::MAX,
        height <= i32::MAX,
        monitor matches Some(mon) ==> mon.width <= i32::MAX,
        placement_fits(y as int, width as int, height as int, screen_width as int, screen_height as int, monitor),
    ensures
        (r.0 as int, r.1 as int) == panel_position_spec(
            x as int,
            y as int,
            width as int,
            height as int,
            screen_width as int,
            screen_height as int,
            monitor,
        ),
{
    let w = width as i32;
    let h = height as i32;
    if x == 0 && y == 0 {
        return (screen_width - w - 16, 40);
    }
    match monitor {
        Some(mon) => {
            let monitor_right = mon.x + mon.width as i32;
            let px = monitor_right - w - 8;
            let py = if y < mon.y + 100 {
                y + 8
            } else if y > screen_height - 100 {
                y - h - 8
            } else {
                y + 8
            };
            let lo = if py >= 8 {
                py
            } else {
                8
            };
            let hi = screen_height - h - 8;
            (px, if lo <= hi {
                lo
            } else {
                hi
            })
        },
        None => {
            let px = screen_width - w - 8;
            let py = y + 8;
            let lo = if py >= 8 {
                py
            } else {
                8
            };
            let hi = screen_height - h - 8;
            (if px >= 8 {
                px
            } else {
                8
            }, if lo <= hi {
                lo
            } else {
                hi
            })
        },
    }
}

/// Whether a press at (x, y), relative to the panel, lies outside it.
pub fn click_outside(x: i32, y: i32, width: u32, height: u32) -> (b: bool)
    requires
        width <= i32::MAX,
        height <= i32::MAX,
    ensures
        b == (x < 0 || y < 0 || x >= width || y >= height),
{
    x < 0 || y < 0 || x >= width as i32 || y >= height as i32
}

// ---------------------------------------------------------------------
// Scrolling lists
// ---------------------------------------------------------------------

/// The largest scroll offset for `len` entries with `max_visible` shown.
pub open spec fn max_scroll(len: nat, max_visible: nat) -> nat {
    if len > max_visible {
        (len - max_visible) as nat
    } else {
        0
    }
}

/// The part of a list that shows.
#[derive(Debug, Clone, Copy, PartialEq, Eq, Structural)]
pub struct ListWindow {
    /// Scroll offset, clamped to the largest possible
    pub offset: usize,
    /// Index one past the last entry shown
    pub end: usize,
    /// Whether entries are hidden above
    pub can_scroll_up: bool,
    /// Whether entries are hidden below
    pub can_scroll_down: bool,
    /// How many entries are hidden below
    pub remaining_below: usize,
}

/// Which entries of a list of `len` show at scroll offset `offset`.
pub fn list_window(len: usize, offset: usize, max_visible: usize) -> (w: ListWindow)
    ensures
        w.offset as nat == if offset > max_scroll(len as nat, max_visible as nat) {
            max_scroll(len as nat, max_visible as nat)
        } else {
            offset as nat
        },
        w.end as int == if w.offset + max_visible <= len {
            w.offset + max_visible
        } else {
            len as int
        },
        w.can_scroll_up == (w.offset > 0),
        w.can_scroll_down == (w.offset < max_scroll(len as nat, max_visible as nat)),
        w.remaining_below as nat == if w.can_scroll_down {
            (len - w.offset - max_visible) as nat
        } else {
            0
        },
{
    let max = if len > max_visible {
        len - max_visible
    } else {
        0
    };
    let offset = if offset > max {
        max
    } else {
        offset
    };
    let end = if max_visible <= len - offset {
        offset + max_visible
    } else {
        len
    };
    let can_down = offset < max;
    ListWindow {
        offset,
        end,
        can_scroll_up: offset > 0,
        can_scroll_down: can_down,
        remaining_below: if can_down {
            len - offset - max_visible
        } else {
            0
        },
    }
}

/// The scroll offset after a scroll up: one less, unless at the top. The
/// second result tells whether it moved (and the panel redraws).
pub fn scroll_up(offset: usize) -> (r: (usize, bool))
    ensures
        offset > 0 ==> r == ((offset - 1) as usize, true),
        offset == 0 ==> r == (0usize, false),
{
    if offset > 0 {
        (offset - 1, true)
    } else {
        (offset, false)
    }
}

/// The scroll offset after a scroll down in a list of `count` entries:
/// one more, unless the last entry already shows.
pub fn scroll_down(offset: usize, count: usize, max_visible: usize) -> (r: (usize, bool))
    ensures
        offset < max_scroll(count as nat, max_visible as nat) ==> r == ((offset + 1) as usize, true),
        offset >= max_scroll(count as nat, max_visible as nat) ==> r == (offset, false),
{
    let max = if count > max_visible {
        count - max_visible
    } else {
        0
    };
    if offset < max {
        (offset + 1, true)
    } else {
        (offset, false)
    }
}

/// The indicator above a scrolled list.
pub fn more_above_text(hidden: usize) -> (s: String)
    ensures
        s@ == "^ "@ + dec_nat(hidden as nat) + " more above"@,
{
    let mut s = String::from_str("^ ");
    s.append(u64_to_string(hidden as u64).as_str());
    s.append(" more above");
    s
}

/// The indicator below a list with hidden entries.
pub fn more_below_text(hidden: usize) -> (s: String)
    ensures
        s@ == "v "@ + dec_nat(hidden as nat) + " more below"@,
{
    let mut s = String::from_str("v ");
    s.append(u64_to_string(hidden as u64).as_str());
    s.append(" more below");
    s
}

// ---------------------------------------------------------------------
// Labels
// ---------------------------------------------------------------------

/// `s` when it has at most `max` characters, otherwise its first `keep`
/// characters followed by "...".
pub open spec fn truncate_spec(s: Seq<char>, max: nat, keep: nat) -> Seq<char> {
    if s.len() > max {
        s.take(keep as int) + "..."@
    } else {
        s
    }
}

/// Shortens a label for a button or a list row.
pub fn truncate_label(s: &str, max: usize, keep: usize) -> (r: String)
    requires
        keep <= max,
    ensures
        r@ == truncate_spec(s@, max as nat, keep as nat),
{
    let n = s.unicode_len();
    if n > max {
        let head = s.substring_char(0, keep);
        let mut r = String::from_str(head);
        r.append("...");
        assert(s@.subrange(0, keep as int) =~= s@.take(keep as int));
        r
    } else {
        String::from_str(s)
    }
}

/// The WiFi button's label: the connected network (shortened to eight
/// characters and "..." past ten) or "WiFi", and "WiFi Off" when WiFi is
/// off.
pub fn wifi_label(enabled: bool, connected_ssid: Option<&str>) -> (r: String)
    ensures
        r@ == if !enabled {
            "WiFi Off"@
        } else {
            match connected_ssid {
                Some(s) => truncate_spec(s@, 10, 8),
                None => "WiFi"@,
            }
        },
{
    if !enabled {
        return String::from_str("WiFi Off");
    }
    match connected_ssid {
        Some(s) => truncate_label(s, 10, 8),
        None => String::from_str("WiFi"),
    }
}

/// The first connected device, if any.
pub open spec fn first_connected(devices: Seq<BluetoothDevice>) -> Option<BluetoothDevice> {
    if exists|i: int| 0 <= i < devices.len() && (#[trigger] devices[i]).connected {
        Some(
            devices[choose|i: int|
                0 <= i < devices.len() && (#[trigger] devices[i]).connected && forall|j: int|
                    0 <= j < i ==> !(#[trigger] devices[j]).connected],
        )
    } else {
        None
    }
}

/// The Bluetooth button's label: the first connected device's name
/// (shortened as for WiFi) or "Bluetooth", and "BT Off" when the adapter
/// is off.
pub fn bluetooth_label(powered: bool, devices: &Vec<BluetoothDevice>) -> (r: String)
    ensures
        r@ == if !powered {
            "BT Off"@
        } else {
            match first_connected(devices@) {
                Some(d) => truncate_spec(d.name@, 10, 8),
                None => "Bluetooth"@,
            }
        },
{
    if !powered {
        return String::from_str("BT Off");
    }
    let n = devices.len();
    let mut i: usize = 0;
    while i < n
        invariant
            powered,
            n == devices@.len(),
            i <= n,
            forall|j: int| 0 <= j < i ==> !(#[trigger] devices@[j]).connected,
        decreases n - i,
    {
        if devices[i].connected {
            proof {
                assert(devices@[i as int].connected);
                let c = choose|c: int|
                    0 <= c < devices@.len() && (#[trigger] devices@[c]).connected && forall|j: int|
                        0 <= j < c ==> !(#[trigger] devices@[j]).connected;
                assert(c == i as int) by {
                    if c < i {
                        assert(!devices@[c].connected);
                    } else if c > i {
                        assert(!devices@[i as int].connected);
                    }
                }
            }
            return truncate_label(devices[i].name.as_str(), 10, 8);
        }
        i = i + 1;
    }
    String::from_str("Bluetooth")
}

/// The status shown on a device row.
pub fn device_status_label(device: &BluetoothDevice) -> (s: &'static str)
    ensures
        s@ == if device.connected {
            "Connected"@
        } else if device.paired {
            "Paired"@
        } else {
            "Available"@
        },
{
    if device.connected {
        "Connected"
    } else if device.paired {
        "Paired"
    } else {
        "Available"
    }
}

/// The password as shown: one '*' per byte.
pub fn mask_password(text: &str) -> (r: String)
    requires
        byte_len(text@) <= usize::MAX,
    ensures
        r@ == Seq::new(byte_len(text@), |i: int| '*'),
{
    let n = str_byte_len(text);
    let mut r = String::new();
    let mut i: usize = 0;
    while i < n
        invariant
            n == byte_len(text@),
            i <= n,
            r@ == Seq::new(i as nat, |k: int| '*'),
        decreases n - i,
    {
        push_char(&mut r, '*');
        i = i + 1;
        assert(r@ =~= Seq::new(i as nat, |k: int| '*'));
    }
    r
}

// ---------------------------------------------------------------------
// Keyboard
// ---------------------------------------------------------------------

/// The character an X11 key code types on a US QWERTY layout, with or
/// without shift (bit 0 of the modifier state).
pub open spec fn keycode_char_spec(keycode: u8, state: u16) -> Option<char> {
    let shift = state % 2 == 1;
    let pick = |lower: char, upper: char|
        if shift {
            upper
        } else {
            lower
        };
    match keycode {
        10 => Some(pick('1', '!')),
        11 => Some(pick('2', '@')),
        12 => Some(pick('3', '#')),
        13 => Some(pick('4', '$')),
        14 => Some(pick('5', '%')),
        15 => Some(pick('6', '^')),
        16 => Some(pick('7', '&')),
        17 => Some(pick('8', '*')),
        18 => Some(pick('9', '(')),
        19 => Some(pick('0', ')')),
        20 => Some(pick('-', '_')),
        21 => Some(pick('=', '+')),
        24 => Some(pick('q', 'Q')),
        25 => Some(pick('w', 'W')),
        26 => Some(pick('e', 'E')),
        27 => Some(pick('r', 'R')),
        28 => Some(pick('t', 'T')),
        29 => Some(pick('y', 'Y')),
        30 => Some(pick('u', 'U')),
        31 => Some(pick('i', 'I')),
        32 => Some(pick('o', 'O')),
        33 => Some(pick('p', 'P')),
        34 => Some(pick('[', '{')),
        35 => Some(pick(']', '}')),
        38 => Some(pick('a', 'A')),
        39 => Some(pick('s', 'S')),
        40 => Some(pick('d', 'D')),
        41 => Some(pick('f', 'F')),
        42 => Some(pick('g', 'G')),
        43 => Some(pick('h', 'H')),
        44 => Some(pick('j', 'J')),
        45 => Some(pick('k', 'K')),
        46 => Some(pick('l', 'L')),
        47 => Some(pick(';', ':')),
        48 => Some(pick('\'', '"')),
        51 => Some(pick('\\', '|')),
        52 => Some(pick('z', 'Z')),
        53 => Some(pick('x', 'X')),
        54 => Some(pick('c', 'C')),
        55 => Some(pick('v', 'V')),
        56 => Some(pick('b', 'B')),
        57 => Some(pick('n', 'N')),
        58 => Some(pick('m', 'M')),
        59 => Some(pick(',', '<')),
        60 => Some(pick('.', '>')),
        61 => Some(pick('/', '?')),
        65 => Some(' '),
        49 => Some(pick('`', '~')),
        _ => None,
    }
}

/// The character an X11 key code types on a US QWERTY layout.
pub fn keycode_to_char(keycode: u8, state: u16) -> (r: Option<char>)
    ensures
        r == keycode_char_spec(keycode, state),
{
    let shift = (state & 1) != 0;
    assert(((state & 1) != 0) == (state % 2 == 1)) by (bit_vector);
    let ch = match keycode {
        10 => if shift { '!' } else { '1' },
        11 => if shift { '@' } else { '2' },
        12 => if shift { '#' } else { '3' },
        13 => if shift { '$' } else { '4' },
        14 => if shift { '%' } else { '5' },
        15 => if shift { '^' } else { '6' },
        16 => if shift { '&' } else { '7' },
        17 => if shift { '*' } else { '8' },
        18 => if shift { '(' } else { '9' },
        19 => if shift { ')' } else { '0' },
        20 => if shift { '_' } else { '-' },
        21 => if shift { '+' } else { '=' },
        24 => if shift { 'Q' } else { 'q' },
        25 => if shift { 'W' } else { 'w' },
        26 => if shift { 'E' } else { 'e' },
        27 => if shift { 'R' } else { 'r' },
        28 => if shift { 'T' } else { 't' },
        29 => if shift { 'Y' } else { 'y' },
        30 => if shift { 'U' } else { 'u' },
        31 => if shift { 'I' } else { 'i' },
        32 => if shift { 'O' } else { 'o' },
        33 => if shift { 'P' } else { 'p' },
        34 => if shift { '{' } else { '[' },
        35 => if shift { '}' } else { ']' },
        38 => if shift { 'A' } else { 'a' },
        39 => if shift { 'S' } else { 's' },
        40 => if shift { 'D' } else { 'd' },
        41 => if shift { 'F' } else { 'f' },
        42 => if shift { 'G' } else { 'g' },
        43 => if shift { 'H' } else { 'h' },
        44 => if shift { 'J' } else { 'j' },
        45 => if shift { 'K' } else { 'k' },
        46 => if shift { 'L' } else { 'l' },
        47 => if shift { ':' } else { ';' },
        48 => if shift { '"' } else { '\'' },
        51 => if shift { '|' } else { '\\' },
        52 => if shift { 'Z' } else { 'z' },
        53 => if shift { 'X' } else { 'x' },
        54 => if shift { 'C' } else { 'c' },
        55 => if shift { 'V' } else { 'v' },
        56 => if shift { 'B' } else { 'b' },
        57 => if shift { 'N' } else { 'n' },
        58 => if shift { 'M' } else { 'm' },
        59 => if shift { '<' } else { ',' },
        60 => if shift { '>' } else { '.' },
        61 => if shift { '?' } else { '/' },
        65 => ' ',
        49 => if shift { '~' } else { '`' },
        _ => return None,
    };
    Some(ch)
}

/// X11 key codes the panel handles.
pub const KEY_ESCAPE: u8 = 9;
pub const KEY_BACKSPACE: u8 = 22;
pub const KEY_RETURN: u8 = 36;

/// The WiFi password entry.
#[derive(Debug, Clone)]
pub struct PasswordEntry {
    /// The network the password is for, while the entry is open
    pub ssid: Option<String>,
    /// The password typed so far
    pub text: String,
}

/// What a key press does to the panel.
#[derive(Debug, Clone)]
pub enum KeyOutcome {
    /// Nothing
    Nothing,
    /// Redraw
    Render,
    /// The entry was cancelled: resize and redraw
    EntryCancelled,
    /// Connect to `ssid` with `password`, refresh the list, resize and
    /// redraw
    Submit { ssid: String, password: String },
    /// Hide the panel
    HidePanel,
}

/// Removes the last character of `s` (`String::pop`).
#[verifier::external_body]
fn pop_char(s: &mut String) -> (c: Option<char>)
    ensures
        old(s)@.len() == 0 ==> c is None && final(s)@ == old(s)@,
        old(s)@.len() > 0 ==> c == Some(old(s)@.last()) && final(s)@ == old(s)@.drop_last(),
{
    s.pop()
}

impl PasswordEntry {
    /// A closed entry.
    pub fn new() -> (e: Self)
        ensures
            e.ssid is None,
            e.text@.len() == 0,
    {
        PasswordEntry { ssid: None, text: String::new() }
    }

    /// Opens the entry for `ssid` with an empty password.
    pub fn open(&mut self, ssid: String)
        ensures
            final(self).ssid == Some(ssid),
            final(self).text@.len() == 0,
    {
        self.ssid = Some(ssid);
        self.text = String::new();
    }

    /// Handles a key press. With the entry open: Escape cancels it,
    /// Return submits a non-empty password (and closes the entry),
    /// Backspace deletes the last character, a typing key adds its
    /// character. With the entry closed, Escape hides the panel.
    pub fn handle_key(&mut self, keycode: u8, state: u16) -> (out: KeyOutcome)
        ensures
            old(self).ssid is None ==> *final(self) == *old(self) && (if keycode == KEY_ESCAPE {
                out is HidePanel
            } else {
                out is Nothing
            }),
            old(self).ssid is Some ==> (if keycode == KEY_ESCAPE {
                final(self).ssid is None && final(self).text@.len() == 0 && out is EntryCancelled
            } else if keycode == KEY_RETURN {
                if old(self).text@.len() > 0 {
                    &&& final(self).ssid is None
                    &&& final(self).text@.len() == 0
                    &&& out matches KeyOutcome::Submit { ssid, password } && Some(ssid) == old(
                        self,
                    ).ssid && password == old(self).text
                } else {
                    *final(self) == *old(self) && out is Nothing
                }
            } else if keycode == KEY_BACKSPACE {
                final(self).ssid == old(self).ssid && final(self).text@ == (if old(self).text@.len()
                    > 0 {
                    old(self).text@.drop_last()
                } else {
                    old(self).text@
                }) && out is Render
            } else {
                match keycode_char_spec(keycode, state) {
                    Some(c) => final(self).ssid == old(self).ssid && final(self).text@ == old(
                        self,
                    ).text@.push(c) && out is Render,
                    None => *final(self) == *old(self) && out is Nothing,
                }
            }),
    {
        if self.ssid.is_none() {
            if keycode == KEY_ESCAPE {
                return KeyOutcome::HidePanel;
            }
            return KeyOutcome::Nothing;
        }
        if keycode == KEY_ESCAPE {
            self.ssid = None;
            self.text = String::new();
            return KeyOutcome::EntryCancelled;
        }
        if keycode == KEY_RETURN {
            if self.text.as_str().is_empty() {
                return KeyOutcome::Nothing;
            }
            let ssid = match self.ssid.take() {
                Some(s) => s,
                None => String::new(),
            };
            let mut password = String::new();
            std::mem::swap(&mut password, &mut self.text);
            return KeyOutcome::Submit { ssid, password };
        }
        if keycode == KEY_BACKSPACE {
            pop_char(&mut self.text);
            return KeyOutcome::Render;
        }
        match keycode_to_char(keycode, state) {
            Some(c) => {
                push_char(&mut self.text, c);
                KeyOutcome::Render
            },
            None => KeyOutcome::Nothing,
        }
    }
}

// ---------------------------------------------------------------------
// Buttons and rows
// ---------------------------------------------------------------------

/// The panel's buttons.
#[derive(Debug, Clone, Copy, PartialEq, Eq, Structural)]
pub enum PanelButton {
    Wifi,
    Bluetooth,
    Battery,
    Dnd,
    Shutdown,
    Restart,
    Logout,
    Hibernate,
}

/// The button a hit-test name stands for.
pub open spec fn button_named(name: Seq<char>) -> Option<PanelButton> {
    if name == "wifi"@ {
        Some(PanelButton::Wifi)
    } else if name == "bluetooth"@ {
        Some(PanelButton::Bluetooth)
    } else if name == "battery"@ {
        Some(PanelButton::Battery)
    } else if name == "dnd"@ {
        Some(PanelButton::Dnd)
    } else if name == "shutdown"@ {
        Some(PanelButton::Shutdown)
    } else if name == "restart"@ {
        Some(PanelButton::Restart)
    } else if name == "logout"@ {
        Some(PanelButton::Logout)
    } else if name == "hibernate"@ {
        Some(PanelButton::Hibernate)
    } else {
        None
    }
}

/// The button for a hit-test name; `None` for unknown names.
pub fn button_from_name(name: &str) -> (b: Option<PanelButton>)
    ensures
        b == button_named(name@),
{
    if str_eq(name, "wifi") {
        Some(PanelButton::Wifi)
    } else if str_eq(name, "bluetooth") {
        Some(PanelButton::Bluetooth)
    } else if str_eq(name, "battery") {
        Some(PanelButton::Battery)
    } else if str_eq(name, "dnd") {
        Some(PanelButton::Dnd)
    } else if str_eq(name, "shutdown") {
        Some(PanelButton::Shutdown)
    } else if str_eq(name, "restart") {
        Some(PanelButton::Restart)
    } else if str_eq(name, "logout") {
        Some(PanelButton::Logout)
    } else if str_eq(name, "hibernate") {
        Some(PanelButton::Hibernate)
    } else {
        None
    }
}

/// The panel's buttons in drawing order, each with whether it shows as
/// active: WiFi (on), Bluetooth (powered), the battery (never), Do Not
/// Disturb (on), then the four power buttons (never).
pub open spec fn panel_buttons_spec(wifi_enabled: bool, bluetooth_powered: bool, dnd_enabled: bool) -> Seq<
    (PanelButton, bool),
> {
    seq![
        (PanelButton::Wifi, wifi_enabled),
        (PanelButton::Bluetooth, bluetooth_powered),
        (PanelButton::Battery, false),
        (PanelButton::Dnd, dnd_enabled),
        (PanelButton::Shutdown, false),
        (PanelButton::Restart, false),
        (PanelButton::Logout, false),
        (PanelButton::Hibernate, false),
    ]
}

/// The panel's buttons and whether each shows as active (see
/// `panel_buttons_spec`).
pub fn panel_buttons(wifi_enabled: bool, bluetooth_powered: bool, dnd_enabled: bool) -> (r: Vec<
    (PanelButton, bool),
>)
    ensures
        r@ == panel_buttons_spec(wifi_enabled, bluetooth_powered, dnd_enabled),
{
    let r = vec![
        (PanelButton::Wifi, wifi_enabled),
        (PanelButton::Bluetooth, bluetooth_powered),
        (PanelButton::Battery, false),
        (PanelButton::Dnd, dnd_enabled),
        (PanelButton::Shutdown, false),
        (PanelButton::Restart, false),
        (PanelButton::Logout, false),
        (PanelButton::Hibernate, false),
    ];
    assert(r@ =~= panel_buttons_spec(wifi_enabled, bluetooth_powered, dnd_enabled));
    r
}

/// Which optional modules the panel's configuration asks for.
#[derive(Debug, Clone, Copy, PartialEq, Eq, Structural)]
pub struct ModuleChoice {
    pub volume: bool,
    pub brightness: bool,
    pub battery: bool,
}

/// Whether `name` is among the configured module names.
pub open spec fn names_module(modules: Seq<String>, name: Seq<char>) -> bool {
    exists|i: int| 0 <= i < modules.len() && #[trigger] modules[i]@ == name
}

/// The optional modules to set up: volume, brightness and battery, each
/// when its name is listed (other names are ignored).
pub fn module_choice(modules: &Vec<String>) -> (c: ModuleChoice)
    ensures
        c.volume == names_module(modules@, "volume"@),
        c.brightness == names_module(modules@, "brightness"@),
        c.battery == names_module(modules@, "battery"@),
{
    let mut c = ModuleChoice { volume: false, brightness: false, battery: false };
    let mut i: usize = 0;
    while i < modules.len()
        invariant
            i <= modules@.len(),
            c.volume == exists|j: int| 0 <= j < i && #[trigger] modules@[j]@ == "volume"@,
            c.brightness == exists|j: int| 0 <= j < i && #[trigger] modules@[j]@ == "brightness"@,
            c.battery == exists|j: int| 0 <= j < i && #[trigger] modules@[j]@ == "battery"@,
        decreases modules@.len() - i,
    {
        let name = modules[i].as_str();
        if str_eq(name, "volume") {
            c.volume = true;
        }
        if str_eq(name, "brightness") {
            c.brightness = true;
        }
        if str_eq(name, "battery") {
            c.battery = true;
        }
        assert(modules@[i as int]@ == name@);
        i = i + 1;
    }
    c
}

/// Whether a press on the button starts a hold timer (WiFi and Bluetooth
/// turn off on a long hold) rather than acting at once.
pub fn starts_hold(button: PanelButton) -> (b: bool)
    ensures
        b == (button == PanelButton::Wifi || button == PanelButton::Bluetooth),
{
    match button {
        PanelButton::Wifi | PanelButton::Bluetooth => true,
        _ => false,
    }
}

/// What opening or closing a list does.
#[derive(Debug, Clone, Copy, PartialEq, Eq, Structural)]
pub struct SectionChange {
    /// The section expanded afterwards
    pub expanded: ExpandedSection,
    /// Whether the WiFi scroll offset goes back to zero
    pub reset_wifi_scroll: bool,
    /// Whether the Bluetooth scroll offset goes back to zero
    pub reset_bluetooth_scroll: bool,
    /// Whether to scan for the list just opened
    pub scan: bool,
}

/// A click on the WiFi (`wifi` true) or Bluetooth button's list toggle:
/// the list closes when it is open (its scroll goes back to the top),
/// otherwise it opens (in place of the other one) and is scanned.
pub fn toggle_section(current: ExpandedSection, wifi: bool) -> (c: SectionChange)
    ensures
        wifi && current == ExpandedSection::WiFi ==> c == (SectionChange {
            expanded: ExpandedSection::Collapsed,
            reset_wifi_scroll: true,
            reset_bluetooth_scroll: false,
            scan: false,
        }),
        wifi && current != ExpandedSection::WiFi ==> c == (SectionChange {
            expanded: ExpandedSection::WiFi,
            reset_wifi_scroll: false,
            reset_bluetooth_scroll: false,
            scan: true,
        }),
        !wifi && current == ExpandedSection::Bluetooth ==> c == (SectionChange {
            expanded: ExpandedSection::Collapsed,
            reset_wifi_scroll: false,
            reset_bluetooth_scroll: true,
            scan: false,
        }),
        !wifi && current != ExpandedSection::Bluetooth ==> c == (SectionChange {
            expanded: ExpandedSection::Bluetooth,
            reset_wifi_scroll: false,
            reset_bluetooth_scroll: false,
            scan: true,
        }),
{
    if wifi {
        if current == ExpandedSection::WiFi {
            SectionChange {
                expanded: ExpandedSection::Collapsed,
                reset_wifi_scroll: true,
                reset_bluetooth_scroll: false,
                scan: false,
            }
        } else {
            SectionChange {
                expanded: ExpandedSection::WiFi,
                reset_wifi_scroll: false,
                reset_bluetooth_scroll: false,
                scan: true,
            }
        }
    } else {
        if current == ExpandedSection::Bluetooth {
            SectionChange {
                expanded: ExpandedSection::Collapsed,
                reset_wifi_scroll: false,
                reset_bluetooth_scroll: true,
                scan: false,
            }
        } else {
            SectionChange {
                expanded: ExpandedSection::Bluetooth,
                reset_wifi_scroll: false,
                reset_bluetooth_scroll: false,
                scan: true,
            }
        }
    }
}

/// What a click on a WiFi row does.
#[derive(Debug, Clone, Copy, PartialEq, Eq, Structural)]
pub enum WifiRowAction {
    /// Disconnect from the network, then refresh the list
    Disconnect,
    /// Ask for the network's password
    AskPassword,
    /// Connect (open network or saved credentials), then refresh the list
    Connect,
}

/// A click on the row of network `ssid`: disconnect when connected to it,
/// ask for a password when it needs one, connect otherwise.
pub fn wifi_row_action(connected_ssid: Option<&str>, ssid: &str, needs_password: bool) -> (a: WifiRowAction)
    ensures
        a == if (match connected_ssid {
            Some(c) => c@ == ssid@,
            None => false,
        }) {
            WifiRowAction::Disconnect
        } else if needs_password {
            WifiRowAction::AskPassword
        } else {
            WifiRowAction::Connect
        },
{
    let connected = match connected_ssid {
        Some(c) => str_eq(c, ssid),
        None => false,
    };
    if connected {
        WifiRowAction::Disconnect
    } else if needs_password {
        WifiRowAction::AskPassword
    } else {
        WifiRowAction::Connect
    }
}

/// What a click on a Bluetooth row does (the list is refreshed after
/// any of them).
#[derive(Debug, Clone, Copy, PartialEq, Eq, Structural)]
pub enum DeviceRowAction {
    /// The device is not in the list
    Unknown,
    /// Disconnect the device
    Disconnect,
    /// Connect the device
    Connect,
}

/// The first device with object path `path`.
pub open spec fn device_at_path(devices: Seq<BluetoothDevice>, path: Seq<char>) -> Option<BluetoothDevice> {
    if exists|i: int| 0 <= i < devices.len() && (#[trigger] devices[i]).path@ == path {
        Some(
            devices[choose|i: int|
                0 <= i < devices.len() && (#[trigger] devices[i]).path@ == path && forall|j: int|
                    0 <= j < i ==> (#[trigger] devices[j]).path@ != path],
        )
    } else {
        None
    }
}

/// A click on the row of the device at `path`: disconnect a connected
/// device, connect another.
pub fn device_row_action(devices: &Vec<BluetoothDevice>, path: &str) -> (a: DeviceRowAction)
    ensures
        a == match device_at_path(devices@, path@) {
            Some(d) => if d.connected {
                DeviceRowAction::Disconnect
            } else {
                DeviceRowAction::Connect
            },
            None => DeviceRowAction::Unknown,
        },
{
    let n = devices.len();
    let mut i: usize = 0;
    while i < n
        invariant
            n == devices@.len(),
            i <= n,
            forall|j: int| 0 <= j < i ==> (#[trigger] devices@[j]).path@ != path@,
        decreases n - i,
    {
        if str_eq(devices[i].path.as_str(), path) {
            proof {
                let c = choose|c: int|
                    0 <= c < devices@.len() && (#[trigger] devices@[c]).path@ == path@ && forall|j: int|
                        0 <= j < c ==> (#[trigger] devices@[j]).path@ != path@;
                assert(c == i as int) by {
                    if c < i {
                        assert(devices@[c].path@ != path@);
                    } else if c > i {
                        assert(devices@[i as int].path@ != path@);
                    }
                }
            }
            if devices[i].connected {
                return DeviceRowAction::Disconnect;
            } else {
                return DeviceRowAction::Connect;
            }
        }
        i = i + 1;
    }
    DeviceRowAction::Unknown
}

// ---------------------------------------------------------------------
// Timing
// ---------------------------------------------------------------------

/// A press held this long (milliseconds) on WiFi or Bluetooth switches
/// the radio.
pub const HOLD_THRESHOLD_MS: u64 = 500;
/// The WiFi list refreshes this often (milliseconds) while open.
pub const WIFI_REFRESH_INTERVAL_MS: u64 = 10_000;
/// Losing focus this soon (milliseconds) after showing does not hide.
pub const FOCUS_GRACE_MS: u64 = 150;
/// Slider values are applied at most this often (milliseconds).
pub const SLIDER_APPLY_INTERVAL_MS: u64 = 100;
/// The panel redraws at most this often while dragging (milliseconds).
pub const DRAG_RENDER_INTERVAL_MS: u64 = 16;

/// Milliseconds from `since` to `now`; zero when the clock reads earlier.
pub open spec fn since_ms(now: u64, since: u64) -> int {
    if now >= since {
        now - since
    } else {
        0
    }
}

/// Milliseconds from `since` to `now`.
pub fn elapsed_ms(now: u64, since: u64) -> (e: u64)
    ensures
        e == since_ms(now, since),
{
    if now >= since {
        now - since
    } else {
        0
    }
}

/// Whether a press that started at `press_start` has become a hold.
pub fn hold_reached(press_start: u64, now: u64) -> (b: bool)
    ensures
        b == (since_ms(now, press_start) >= HOLD_THRESHOLD_MS),
{
    elapsed_ms(now, press_start) >= HOLD_THRESHOLD_MS
}

/// Whether something last done at `last` (never when `None`) is due
/// again after `interval` milliseconds.
pub fn due(last: Option<u64>, now: u64, interval: u64) -> (b: bool)
    ensures
        b == match last {
            Some(t) => since_ms(now, t) >= interval,
            None => true,
        },
{
    match last {
        Some(t) => elapsed_ms(now, t) >= interval,
        None => true,
    }
}

/// Whether losing focus hides the panel: not within the grace period
/// after it was shown.
pub fn focus_loss_hides(shown_at: Option<u64>, now: u64) -> (b: bool)
    ensures
        b == match shown_at {
            Some(t) => since_ms(now, t) >= FOCUS_GRACE_MS,
            None => true,
        },
{
    match shown_at {
        Some(t) => elapsed_ms(now, t) >= FOCUS_GRACE_MS,
        None => true,
    }
}

// ---------------------------------------------------------------------
// Laws
// ---------------------------------------------------------------------

/// The expanded section never takes more than the largest list allows:
/// WiFi at most three rows with indicators and hint, Bluetooth at most
/// five rows with indicators; and it never takes less than one row.
pub proof fn law_expansion_height_bounds(section: ExpandedSection, count: nat)
    ensures
        section == ExpandedSection::WiFi ==> 60 <= expansion_height_spec(section, count) <= 156,
        section == ExpandedSection::Bluetooth ==> 40 <= expansion_height_spec(section, count)
            <= 200,
        section == ExpandedSection::Collapsed ==> expansion_height_spec(section, count) == 0,
{
}

/// The offset after a scroll up.
pub open spec fn scroll_up_spec(offset: nat) -> nat {
    if offset > 0 {
        (offset - 1) as nat
    } else {
        0
    }
}

/// The offset after a scroll down.
pub open spec fn scroll_down_spec(offset: nat, count: nat, max_visible: nat) -> nat {
    if offset < max_scroll(count, max_visible) {
        offset + 1
    } else {
        offset
    }
}

/// Scrolling down and then up returns to the same offset whenever the
/// scroll down moved, and scrolling never passes the last page.
pub proof fn law_scroll_round_trip(offset: nat, count: nat, max_visible: nat)
    ensures
        scroll_down_spec(offset, count, max_visible) != offset ==> scroll_up_spec(
            scroll_down_spec(offset, count, max_visible),
        ) == offset,
        offset <= max_scroll(count, max_visible) ==> scroll_down_spec(offset, count, max_visible)
            <= max_scroll(count, max_visible),
{
}

} // verus!
