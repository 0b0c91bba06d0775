//! XEMBED system tray bookkeeping: which monitor the tray goes on and
//! where, the docked icons and their places, which icon a click is for,
//! and what each X event asks of the tray.
//!
//! The X11 requests themselves are the caller's part.

use vstd::prelude::*;
use crate::text::{bool_text, bool_to_string, dec_nat, str_eq, u64_to_string};

verus! {

// ---------------------------------------------------------------------
// Monitors and placement
// ---------------------------------------------------------------------

/// Monitor geometry info.
#[derive(Debug, Clone)]
pub struct MonitorInfo {
    pub name: String,
    pub x: i16,
    pub y: i16,
    pub width: u16,
    pub height: u16,
    pub primary: bool,
}

/// Index of the first primary monitor from `i` on.
pub open spec fn first_primary(ms: Seq<MonitorInfo>, i: int) -> Option<int>
    decreases ms.len() - i,
{
    if i < 0 || i >= ms.len() {
        None
    } else if ms[i].primary {
        Some(i)
    } else {
        first_primary(ms, i + 1)
    }
}

/// Index of the first monitor named `name` from `i` on.
pub open spec fn first_named(ms: Seq<MonitorInfo>, name: Seq<char>, i: int) -> Option<int>
    decreases ms.len() - i,
{
    if i < 0 || i >= ms.len() {
        None
    } else if ms[i].name@ == name {
        Some(i)
    } else {
        first_named(ms, name, i + 1)
    }
}

/// The primary monitor, or else the first one.
pub open spec fn primary_or_first(ms: Seq<MonitorInfo>) -> Option<int> {
    match first_primary(ms, 0) {
        Some(i) => Some(i),
        None => if ms.len() > 0 {
            Some(0)
        } else {
            None
        },
    }
}

/// The monitor that a selector picks: `primary` and `all` (one tray for
/// now) take the primary monitor or else the first; a name takes the
/// first monitor of that name, or else the primary or first one.
pub open spec fn select_monitor_spec(ms: Seq<MonitorInfo>, selector: Seq<char>) -> Option<int> {
    if selector == "primary"@ || selector == "all"@ {
        primary_or_first(ms)
    } else {
        match first_named(ms, selector, 0) {
            Some(i) => Some(i),
            None => primary_or_first(ms),
        }
    }
}

proof fn lemma_first_primary(ms: Seq<MonitorInfo>, i: int)
    requires
        0 <= i,
    ensures
        first_primary(ms, i) matches Some(j) ==> i <= j < ms.len(),
    decreases ms.len() - i,
{
    if i < ms.len() && !ms[i].primary {
        lemma_first_primary(ms, i + 1);
    }
}

proof fn lemma_first_named(ms: Seq<MonitorInfo>, name: Seq<char>, i: int)
    requires
        0 <= i,
    ensures
        first_named(ms, name, i) matches Some(j) ==> i <= j < ms.len(),
    decreases ms.len() - i,
{
    if i < ms.len() && ms[i].name@ != name {
        lemma_first_named(ms, name, i + 1);
    }
}

fn find_primary(ms: &Vec<MonitorInfo>) -> (r: Option<usize>)
    ensures
        match primary_or_first(ms@) {
            Some(i) => r matches Some(k) && k as int == i,
            None => r is None,
        },
{
    proof {
        lemma_first_primary(ms@, 0);
    }
    let mut i: usize = 0;
    while i < ms.len()
        invariant
            i <= ms@.len(),
            first_primary(ms@, i as int) == first_primary(ms@, 0),
        decreases ms@.len() - i,
    {
        if ms[i].primary {
            return Some(i);
        }
        i = i + 1;
    }
    if ms.len() > 0 {
        Some(0)
    } else {
        None
    }
}

fn find_named(ms: &Vec<MonitorInfo>, name: &str) -> (r: Option<usize>)
    ensures
        match first_named(ms@, name@, 0) {
            Some(i) => r matches Some(k) && k as int == i,
            None => r is None,
        },
{
    proof {
        lemma_first_named(ms@, name@, 0);
    }
    let mut i: usize = 0;
    while i < ms.len()
        invariant
            i <= ms@.len(),
            first_named(ms@, name@, i as int) == first_named(ms@, name@, 0),
        decreases ms@.len() - i,
    {
        if str_eq(ms[i].name.as_str(), name) {
            return Some(i);
        }
        i = i + 1;
    }
    None
}

/// Selects the monitor for the tray (see `select_monitor_spec`).
pub fn select_monitor(monitors: &Vec<MonitorInfo>, selector: &str) -> (r: Option<MonitorInfo>)
    ensures
        match select_monitor_spec(monitors@, selector@) {
            Some(i) => r matches Some(m) && 0 <= i < monitors@.len() && m.name@
                == monitors@[i].name@ && m.x == monitors@[i].x && m.y == monitors@[i].y && m.width
                == monitors@[i].width && m.height == monitors@[i].height && m.primary
                == monitors@[i].primary,
            None => r is None,
        },
{
    proof {
        lemma_first_primary(monitors@, 0);
        lemma_first_named(monitors@, selector@, 0);
    }
    let idx = if str_eq(selector, "primary") || str_eq(selector, "all") {
        find_primary(monitors)
    } else {
        match find_named(monitors, selector) {
            Some(i) => Some(i),
            None => find_primary(monitors),
        }
    };
    match idx {
        Some(i) => {
            let m = &monitors[i];
            Some(
                MonitorInfo {
                    name: m.name.clone(),
                    x: m.x,
                    y: m.y,
                    width: m.width,
                    height: m.height,
                    primary: m.primary,
                },
            )
        },
        None => None,
    }
}

/// The corner of the monitor that the tray sits in.
#[derive(Debug, Clone, Copy, PartialEq, Eq, Structural)]
pub enum Corner {
    TopLeft,
    TopRight,
    BottomLeft,
    BottomRight,
}

/// The corner a position setting names; anything else is top-right.
pub open spec fn corner_spec(position: Seq<char>) -> Corner {
    if position == "top-left"@ {
        Corner::TopLeft
    } else if position == "bottom-left"@ {
        Corner::BottomLeft
    } else if position == "bottom-right"@ {
        Corner::BottomRight
    } else {
        Corner::TopRight
    }
}

/// Reads a position setting.
pub fn corner(position: &str) -> (c: Corner)
    ensures
        c == corner_spec(position@),
{
    if str_eq(position, "top-left") {
        Corner::TopLeft
    } else if str_eq(position, "bottom-left") {
        Corner::BottomLeft
    } else if str_eq(position, "bottom-right") {
        Corner::BottomRight
    } else {
        Corner::TopRight
    }
}

/// The tray's left edge: the monitor's left edge plus the offset, or,
/// on the right, its right edge less the tray's width and the offset.
pub open spec fn tray_x_spec(c: Corner, mon_x: i16, mon_width: u16, tray_width: i16, offset_x: i16) -> int {
    match c {
        Corner::TopLeft | Corner::BottomLeft => mon_x + offset_x,
        _ => mon_x + (mon_width as i16) - tray_width - offset_x,
    }
}

/// The tray's top edge: the monitor's top edge plus the offset, or, at
/// the bottom, its bottom edge less the tray's height and the offset.
pub open spec fn tray_y_spec(c: Corner, mon_y: i16, mon_height: u16, tray_height: i16, offset_y: i16) -> int {
    match c {
        Corner::BottomLeft | Corner::BottomRight => mon_y + (mon_height as i16) - tray_height
            - offset_y,
        _ => mon_y + offset_y,
    }
}

/// Whether a value fits in `i16`.
pub open spec fn fits_i16(v: int) -> bool {
    i16::MIN <= v <= i16::MAX
}

/// Where the tray window goes on a monitor (`x`, `y`, `width`,
/// `height`), for a corner, offsets and the tray's size. The sizes and
/// offsets are taken as 16-bit values, as the X protocol has them.
pub fn tray_position(
    c: Corner,
    mon: (i16, i16, u16, u16),
    tray_width: u32,
    tray_height: u32,
    offset_x: i32,
    offset_y: i32,
) -> (p: (i16, i16))
    requires
        fits_i16(mon.0 + (mon.2 as i16)),
        fits_i16(mon.0 + (mon.2 as i16) - (tray_width as i16)),
        fits_i16(tray_x_spec(c, mon.0, mon.2, tray_width as i16, offset_x as i16)),
        fits_i16(mon.1 + (mon.3 as i16)),
        fits_i16(mon.1 + (mon.3 as i16) - (tray_height as i16)),
        fits_i16(tray_y_spec(c, mon.1, mon.3, tray_height as i16, offset_y as i16)),
    ensures
        p.0 as int == tray_x_spec(c, mon.0, mon.2, tray_width as i16, offset_x as i16),
        p.1 as int == tray_y_spec(c, mon.1, mon.3, tray_height as i16, offset_y as i16),
{
    let (mon_x, mon_y, mon_width, mon_height) = mon;
    let ox = offset_x as i16;
    let oy = offset_y as i16;
    let tw = tray_width as i16;
    let th = tray_height as i16;
    let x = match c {
        Corner::TopLeft | Corner::BottomLeft => mon_x + ox,
        _ => mon_x + mon_width as i16 - tw - ox,
    };
    let y = match c {
        Corner::BottomLeft | Corner::BottomRight => mon_y + mon_height as i16 - th - oy,
        _ => mon_y + oy,
    };
    (x, y)
}

/// The tray's initial width.
pub const TRAY_WIDTH: u32 = 200;

// ---------------------------------------------------------------------
// Docked icons
// ---------------------------------------------------------------------

/// A single tray icon.
#[derive(Debug, Clone, Copy, PartialEq, Eq, Structural)]
pub struct TrayIcon {
    pub window: u32,
    pub width: u16,
    pub height: u16,
    pub mapped: bool,
}

/// Button event on the tray window that wasn't handled by XEmbed icons.
#[derive(Debug, Clone, Copy, PartialEq, Eq, Structural)]
pub struct TrayButtonEvent {
    pub x: i16,
    pub y: i16,
    pub button: u8,
    pub pressed: bool,
}

/// Whether no window is docked twice.
pub open spec fn windows_unique(s: Seq<TrayIcon>) -> bool {
    forall|i: int, j: int| 0 <= i < j < s.len() ==> (#[trigger] s[i]).window != (#[trigger] s[j]).window
}

/// The index of the icon of window `w`, if docked.
pub open spec fn window_index(s: Seq<TrayIcon>, w: u32) -> Option<int> {
    if exists|i: int| 0 <= i < s.len() && (#[trigger] s[i]).window == w {
        Some(choose|i: int| 0 <= i < s.len() && (#[trigger] s[i]).window == w)
    } else {
        None
    }
}

/// The icons without the one of window `w`.
pub open spec fn without_window(s: Seq<TrayIcon>, w: u32) -> Seq<TrayIcon> {
    match window_index(s, w) {
        Some(i) => s.remove(i),
        None => s,
    }
}

/// The icons with the one of window `w` (if docked) mapped or not.
pub open spec fn with_mapped(s: Seq<TrayIcon>, w: u32, m: bool) -> Seq<TrayIcon> {
    match window_index(s, w) {
        Some(i) => s.update(i, TrayIcon { mapped: m, ..s[i] }),
        None => s,
    }
}

/// The icons with window `w` docked at `size` pixels, mapped; an icon
/// docked again is replaced in place.
pub open spec fn with_docked(s: Seq<TrayIcon>, w: u32, size: u32) -> Seq<TrayIcon> {
    let icon = TrayIcon { window: w, width: size as u16, height: size as u16, mapped: true };
    match window_index(s, w) {
        Some(i) => s.update(i, icon),
        None => s.push(icon),
    }
}

/// The number of mapped icons among the first `n`.
pub open spec fn mapped_before(s: Seq<TrayIcon>, n: int) -> nat
    decreases n,
{
    if n <= 0 || n > s.len() {
        0
    } else {
        mapped_before(s, n - 1) + if s[n - 1].mapped {
            1nat
        } else {
            0nat
        }
    }
}

/// The number of mapped icons.
pub open spec fn mapped_count(s: Seq<TrayIcon>) -> nat {
    mapped_before(s, s.len() as int)
}

/// The distance from one icon to the next, as the 16-bit arithmetic has
/// it.
pub open spec fn icon_step(icon_size: u32, spacing: u32) -> int {
    (icon_size as i16) + (spacing as i16)
}

/// Whether the places of `n` icons, each `step` after the one before and
/// `icon` wide, can be computed in `i16`.
pub open spec fn places_fit(n: nat, step: int, icon: int) -> bool {
    forall|k: int| 0 <= k <= n ==> fits_i16(#[trigger] (k * step)) && fits_i16(k * step + icon)
}

/// The first mapped icon from index `i` on whose place holds `x`, and
/// `x` relative to it; the `k`-th mapped icon (from 0) starts at
/// `k * step`.
pub open spec fn button_target_from(s: Seq<TrayIcon>, x: int, step: int, icon: int, i: int) -> Option<(u32, int)>
    decreases s.len() - i,
{
    if i < 0 || i >= s.len() {
        None
    } else {
        let start = mapped_before(s, i) * step;
        if s[i].mapped && start <= x < start + icon {
            Some((s[i].window, x - start))
        } else {
            button_target_from(s, x, step, icon, i + 1)
        }
    }
}

proof fn lemma_mapped_before_bound(s: Seq<TrayIcon>, n: int)
    requires
        0 <= n <= s.len(),
    ensures
        mapped_before(s, n) <= n,
        forall|m: int| 0 <= m <= n ==> mapped_before(s, m) <= mapped_before(s, n),
    decreases n,
{
    if n > 0 {
        lemma_mapped_before_bound(s, n - 1);
    }
}


/// The diagnostics line of one icon.
pub open spec fn icon_line(ic: TrayIcon) -> Seq<char> {
    "  - Icon "@ + dec_nat(ic.window as nat) + ": "@ + dec_nat(ic.width as nat) + "x"@ + dec_nat(
        ic.height as nat,
    ) + ", mapped="@ + bool_text(ic.mapped) + "\n"@
}

/// The diagnostics lines of the icons, in order.
pub open spec fn icon_lines(s: Seq<TrayIcon>) -> Seq<char>
    decreases s.len(),
{
    if s.len() == 0 {
        Seq::empty()
    } else {
        icon_lines(s.drop_last()) + icon_line(s.last())
    }
}

/// The tray's diagnostics text: whether it owns the tray selection, its
/// windows, the number of icons, then one line per icon.
pub open spec fn diagnostics_spec(owner: bool, tray_window: u32, selection_window: u32, s: Seq<TrayIcon>) -> Seq<char> {
    "XEmbed Tray Diagnostics:\n  Owner: "@ + bool_text(owner) + "\n  Tray window: "@ + dec_nat(
        tray_window as nat,
    ) + "\n  Selection window: "@ + dec_nat(selection_window as nat) + "\n  Icons: "@ + dec_nat(
        s.len(),
    ) + "\n"@ + icon_lines(s)
}


/// Docking a new window and then losing it (destroyed, or reparented
/// away) gives back the icons as they were.
pub proof fn law_dock_then_remove_restores(s: Seq<TrayIcon>, w: u32, size: u32)
    requires
        window_index(s, w) is None,
    ensures
        without_window(with_docked(s, w, size), w) == s,
{
    let icon = TrayIcon { window: w, width: size as u16, height: size as u16, mapped: true };
    let t = s.push(icon);
    assert(t[s.len() as int].window == w);
    assert(window_index(t, w) is Some);
    let i = window_index(t, w)->0;
    assert(0 <= i < t.len() && t[i].window == w);
    if i < s.len() {
        assert(t[i] == s[i]);
    }
    assert(i == s.len());
    assert(t.remove(i) =~= s);
}

/// An unmapped icon that is mapped again is back as it was.
pub proof fn law_unmap_then_map_restores(s: Seq<TrayIcon>, w: u32)
    requires
        windows_unique(s),
        window_index(s, w) matches Some(i) && s[i].mapped,
    ensures
        with_mapped(with_mapped(s, w, false), w, true) == s,
{
    let i = window_index(s, w)->0;
    let t = with_mapped(s, w, false);
    assert(t == s.update(i, TrayIcon { mapped: false, ..s[i] }));
    assert(t[i].window == w);
    lemma_unique_after_update(s, i, TrayIcon { mapped: false, ..s[i] });
    lemma_window_index(t, w, i);
    assert(with_mapped(t, w, true) =~= s);
}

/// The docked icons, in the order the tray walks them.
#[derive(Debug)]
pub struct XEmbedIcons {
    icons: Vec<TrayIcon>,
}

/// What a tray event asks of the caller.
#[derive(Debug, Clone, Copy, PartialEq, Eq, Structural)]
pub enum TrayReaction {
    /// Nothing to do.
    Nothing,
    /// A client asks to dock its icon window.
    Dock(u32),
    /// An icon asks for the keyboard focus.
    FocusIcon(u32),
    /// The icons changed: move them to their places and resize the tray.
    Reposition,
    /// A click on an icon: send it to the icon window, with the point
    /// relative to the icon.
    Forward { window: u32, x: i16, y: i16, button: u8, pressed: bool },
    /// A click on the tray that no icon took (for the tray items drawn by
    /// the tray itself).
    Unhandled(TrayButtonEvent),
}

/// An X event on the tray, with the fields the tray reads.
#[derive(Debug, Clone, Copy, PartialEq, Eq, Structural)]
pub enum TrayEvent {
    /// A client message: its type, window and the second and third data
    /// words.
    ClientMessage { message_type: u32, window: u32, data1: u32, data2: u32 },
    DestroyNotify { window: u32 },
    ReparentNotify { window: u32, parent: u32 },
    UnmapNotify { window: u32 },
    MapNotify { window: u32 },
    ButtonPress { event: u32, x: i16, y: i16, detail: u8 },
    ButtonRelease { event: u32, x: i16, y: i16, detail: u8 },
    /// Any other event; none of them changes the tray.
    Other,
}

/// The atoms and windows that tray events are told apart by.
#[derive(Debug, Clone, Copy, PartialEq, Eq, Structural)]
pub struct TrayIds {
    /// `_NET_SYSTEM_TRAY_OPCODE`
    pub opcode_atom: u32,
    /// `_XEMBED`
    pub xembed_atom: u32,
    /// The tray window
    pub tray_window: u32,
}

/// The system tray opcode that asks to dock an icon.
pub const SYSTEM_TRAY_REQUEST_DOCK: u32 = 0;
/// The XEMBED message by which an icon asks for the focus.
pub const XEMBED_REQUEST_FOCUS: u32 = 3;


/// Whether an event is a click on the tray window.
pub open spec fn button_on_tray(ev: TrayEvent, ids: TrayIds) -> bool {
    match ev {
        TrayEvent::ButtonPress { event, .. } => event == ids.tray_window,
        TrayEvent::ButtonRelease { event, .. } => event == ids.tray_window,
        _ => false,
    }
}

/// What a click on the tray asks for.
pub open spec fn button_reaction(
    s: Seq<TrayIcon>,
    x: i16,
    y: i16,
    button: u8,
    pressed: bool,
    icon_size: u32,
    spacing: u32,
) -> TrayReaction {
    match button_target_from(s, x as int, icon_step(icon_size, spacing), (icon_size as i16) as int, 0) {
        Some((w, lx)) => TrayReaction::Forward { window: w, x: lx as i16, y: y, button: button, pressed: pressed },
        None => TrayReaction::Unhandled(TrayButtonEvent { x: x, y: y, button: button, pressed: pressed }),
    }
}

/// What an event does to the docked icons, and what it asks of the
/// caller: a dock request is passed on; an icon's focus request is passed
/// on when the icon is docked; a docked icon that is destroyed, or
/// reparented away from the tray, leaves; a docked icon that is unmapped,
/// or mapped while unmapped, changes state; each such change asks for the
/// icons to be repositioned; a click on the tray goes to the icon under
/// it, or back to the caller.
pub open spec fn event_spec(s: Seq<TrayIcon>, ev: TrayEvent, ids: TrayIds, icon_size: u32, spacing: u32) -> (Seq<TrayIcon>, TrayReaction) {
    match ev {
        TrayEvent::ClientMessage { message_type, window, data1, data2 } => if message_type
            == ids.opcode_atom {
            if data1 == SYSTEM_TRAY_REQUEST_DOCK {
                (s, TrayReaction::Dock(data2))
            } else {
                (s, TrayReaction::Nothing)
            }
        } else if message_type == ids.xembed_atom && data1 == XEMBED_REQUEST_FOCUS && window_index(
            s,
            window,
        ) is Some {
            (s, TrayReaction::FocusIcon(window))
        } else {
            (s, TrayReaction::Nothing)
        },
        TrayEvent::DestroyNotify { window } => if window_index(s, window) is Some {
            (without_window(s, window), TrayReaction::Reposition)
        } else {
            (s, TrayReaction::Nothing)
        },
        TrayEvent::ReparentNotify { window, parent } => if window_index(s, window) is Some && parent
            != ids.tray_window {
            (without_window(s, window), TrayReaction::Reposition)
        } else {
            (s, TrayReaction::Nothing)
        },
        TrayEvent::UnmapNotify { window } => if window_index(s, window) is Some {
            (with_mapped(s, window, false), TrayReaction::Reposition)
        } else {
            (s, TrayReaction::Nothing)
        },
        TrayEvent::MapNotify { window } => match window_index(s, window) {
            Some(i) => if !s[i].mapped {
                (with_mapped(s, window, true), TrayReaction::Reposition)
            } else {
                (s, TrayReaction::Nothing)
            },
            None => (s, TrayReaction::Nothing),
        },
        TrayEvent::ButtonPress { event, x, y, detail } => if event == ids.tray_window {
            (s, button_reaction(s, x, y, detail, true, icon_size, spacing))
        } else {
            (s, TrayReaction::Nothing)
        },
        TrayEvent::ButtonRelease { event, x, y, detail } => if event == ids.tray_window {
            (s, button_reaction(s, x, y, detail, false, icon_size, spacing))
        } else {
            (s, TrayReaction::Nothing)
        },
        TrayEvent::Other => (s, TrayReaction::Nothing),
    }
}

proof fn lemma_window_index(s: Seq<TrayIcon>, w: u32, i: int)
    requires
        windows_unique(s),
        0 <= i < s.len(),
        s[i].window == w,
    ensures
        window_index(s, w) == Some(i),
{
}

proof fn lemma_unique_after_update(s: Seq<TrayIcon>, i: int, icon: TrayIcon)
    requires
        windows_unique(s),
        0 <= i < s.len(),
        s[i].window == icon.window,
    ensures
        windows_unique(s.update(i, icon)),
{
    let t = s.update(i, icon);
    assert forall|a: int, b: int| 0 <= a < b < t.len() implies (#[trigger] t[a]).window != (
    #[trigger] t[b]).window by {
        assert(s[a].window != s[b].window);
    }
}

proof fn lemma_unique_after_remove(s: Seq<TrayIcon>, i: int)
    requires
        windows_unique(s),
        0 <= i < s.len(),
    ensures
        windows_unique(s.remove(i)),
{
    let t = s.remove(i);
    assert forall|a: int, b: int| 0 <= a < b < t.len() implies (#[trigger] t[a]).window != (
    #[trigger] t[b]).window by {
        let a0 = if a < i { a } else { a + 1 };
        let b0 = if b < i { b } else { b + 1 };
        assert(t[a] == s[a0] && t[b] == s[b0]);
        assert(s[a0].window != s[b0].window);
    }
}

impl XEmbedIcons {
    #[verifier::type_invariant]
    spec fn unique(&self) -> bool {
        windows_unique(self.icons@)
    }

    /// The docked icons, in walking order.
    pub closed spec fn icons_spec(&self) -> Seq<TrayIcon> {
        self.icons@
    }

    /// No icons docked.
    pub fn new() -> (r: Self)
        ensures
            r.icons_spec().len() == 0,
    {
        XEmbedIcons { icons: Vec::new() }
    }

    fn find(&self, w: u32) -> (r: Option<usize>)
        ensures
            match window_index(self.icons@, w) {
                Some(i) => r matches Some(k) && k as int == i && k < self.icons@.len(),
                None => r is None,
            },
    {
        proof {
            use_type_invariant(self);
        }
        let mut i: usize = 0;
        while i < self.icons.len()
            invariant
                i <= self.icons@.len(),
                windows_unique(self.icons@),
                forall|j: int| 0 <= j < i ==> (#[trigger] self.icons@[j]).window != w,
            decreases self.icons@.len() - i,
        {
            if self.icons[i].window == w {
                proof {
                    lemma_window_index(self.icons@, w, i as int);
                }
                return Some(i);
            }
            i = i + 1;
        }
        None
    }

    /// Whether window `w` is docked.
    pub fn contains(&self, w: u32) -> (b: bool)
        ensures
            b == window_index(self.icons_spec(), w) is Some,
    {
        self.find(w).is_some()
    }

    /// The number of docked icons.
    pub fn icon_count(&self) -> (n: usize)
        ensures
            n == self.icons_spec().len(),
    {
        self.icons.len()
    }

    /// The number of mapped icons.
    pub fn mapped_count(&self) -> (n: usize)
        ensures
            n == mapped_count(self.icons_spec()),
    {
        let mut n: usize = 0;
        let mut i: usize = 0;
        while i < self.icons.len()
            invariant
                i <= self.icons@.len(),
                n == mapped_before(self.icons@, i as int),
                n <= i,
            decreases self.icons@.len() - i,
        {
            if self.icons[i].mapped {
                n = n + 1;
            }
            i = i + 1;
        }
        n
    }

    /// Where a newly docked icon goes: after the mapped ones.
    pub fn dock_position(&self, icon_size: u32, spacing: u32) -> (x: i16)
        requires
            fits_i16(mapped_count(self.icons_spec()) as int),
            fits_i16(icon_step(icon_size, spacing)),
            fits_i16(mapped_count(self.icons_spec()) * icon_step(icon_size, spacing)),
        ensures
            x as int == mapped_count(self.icons_spec()) * icon_step(icon_size, spacing),
    {
        let n = self.mapped_count();
        assert(((icon_size as u16) as i16) == (icon_size as i16)) by (bit_vector);
        let step: i16 = (icon_size as u16) as i16 + spacing as i16;
        (n as i16) * step
    }

    /// Records that window `w` was docked, at `icon_size` pixels and
    /// mapped; docking it again replaces its icon.
    pub fn track_docked(&mut self, w: u32, icon_size: u32)
        ensures
            final(self).icons_spec() == with_docked(old(self).icons_spec(), w, icon_size),
    {
        proof {
            use_type_invariant(&*self);
        }
        let size = icon_size as u16;
        let icon = TrayIcon { window: w, width: size, height: size, mapped: true };
        let found = self.find(w);
        let mut icons: Vec<TrayIcon> = Vec::new();
        std::mem::swap(&mut icons, &mut self.icons);
        let ghost before = icons@;
        match found {
            Some(i) => {
                icons.set(i, icon);
                proof {
                    lemma_unique_after_update(before, i as int, icon);
                }
            },
            None => {
                icons.push(icon);
                proof {
                    assert forall|a: int, b: int| 0 <= a < b < icons@.len() implies (
                    #[trigger] icons@[a]).window != (#[trigger] icons@[b]).window by {
                        if b == before.len() {
                            assert(icons@[a] == before[a]);
                        } else {
                            assert(before[a].window != before[b].window);
                        }
                    }
                }
            },
        }
        self.icons = icons;
    }

    fn remove_at(&mut self, i: usize)
        requires
            i < old(self).icons_spec().len(),
        ensures
            final(self).icons_spec() == old(self).icons_spec().remove(i as int),
    {
        proof {
            use_type_invariant(&*self);
        }
        let mut icons: Vec<TrayIcon> = Vec::new();
        std::mem::swap(&mut icons, &mut self.icons);
        let ghost before = icons@;
        icons.remove(i);
        proof {
            lemma_unique_after_remove(before, i as int);
        }
        self.icons = icons;
    }

    fn set_mapped_at(&mut self, i: usize, m: bool)
        requires
            i < old(self).icons_spec().len(),
        ensures
            final(self).icons_spec() == old(self).icons_spec().update(
                i as int,
                TrayIcon { mapped: m, ..old(self).icons_spec()[i as int] },
            ),
    {
        proof {
            use_type_invariant(&*self);
        }
        let mut icons: Vec<TrayIcon> = Vec::new();
        std::mem::swap(&mut icons, &mut self.icons);
        let ghost before = icons@;
        let old_icon = icons[i];
        let icon = TrayIcon { mapped: m, ..old_icon };
        icons.set(i, icon);
        proof {
            lemma_unique_after_update(before, i as int, icon);
        }
        self.icons = icons;
    }

    /// The mapped icons' windows and places: the `k`-th mapped icon at
    /// `k` steps.
    pub fn icon_places(&self, icon_size: u32, spacing: u32) -> (r: Vec<(u32, i16)>)
        requires
            places_fit(mapped_count(self.icons_spec()), icon_step(icon_size, spacing), 0),
        ensures
            r@.len() == mapped_count(self.icons_spec()),
            forall|i: int|
                0 <= i < self.icons_spec().len() && self.icons_spec()[i].mapped ==> (#[trigger] r@[mapped_before(self.icons_spec(), i) as int])
                    == (self.icons_spec()[i].window, (mapped_before(self.icons_spec(), i) * icon_step(icon_size, spacing)) as i16),
    {
        let ghost s = self.icons@;
        let ghost step_i = icon_step(icon_size, spacing);
        proof {
            lemma_mapped_before_bound(s, s.len() as int);
        }
        let mut out: Vec<(u32, i16)> = Vec::new();
        let mut x: i16 = 0;
        let mut i: usize = 0;
        while i < self.icons.len()
            invariant
                s == self.icons@,
                step_i == icon_step(icon_size, spacing),
                i <= s.len(),
                places_fit(mapped_count(s), step_i, 0),
                mapped_before(s, i as int) <= mapped_count(s),
                forall|m: int| 0 <= m <= s.len() ==> mapped_before(s, m) <= mapped_count(s),
                out@.len() == mapped_before(s, i as int),
                x as int == mapped_before(s, i as int) * step_i,
                forall|j: int|
                    0 <= j < i && s[j].mapped ==> (#[trigger] out@[mapped_before(s, j) as int]) == (
                        s[j].window,
                        (mapped_before(s, j) * step_i) as i16,
                    ),
            decreases s.len() - i,
        {
            let icon = self.icons[i];
            if icon.mapped {
                let ghost k = mapped_before(s, i as int);
                proof {
                    lemma_mapped_before_bound(s, i as int);
                    assert forall|j: int| 0 <= j < i && s[j].mapped implies mapped_before(s, j) < k by {
                        assert(mapped_before(s, j + 1) == mapped_before(s, j) + 1);
                    }
                    lemma_mapped_before_bound(s, i + 1);
                    assert(mapped_before(s, i + 1) == k + 1);
                    assert(fits_i16((k + 1) * step_i));
                    assert(fits_i16(1 * step_i));
                    assert((k + 1) * step_i == k * step_i + step_i) by (nonlinear_arith);
                }
                out.push((icon.window, x));
                let step: i16 = (icon_size as i16) + (spacing as i16);
                x = x + step;
            }
            i = i + 1;
        }
        out
    }

    /// The mapped icon that a click at `x` on the tray lands on, with `x`
    /// relative to that icon (see `button_target_from`).
    pub fn button_target(&self, x: i16, icon_size: u32, spacing: u32) -> (r: Option<(u32, i16)>)
        requires
            places_fit(
                mapped_count(self.icons_spec()),
                icon_step(icon_size, spacing),
                (icon_size as i16) as int,
            ),
        ensures
            match button_target_from(
                self.icons_spec(),
                x as int,
                icon_step(icon_size, spacing),
                (icon_size as i16) as int,
                0,
            ) {
                Some((w, lx)) => r == Some((w, lx as i16)),
                None => r is None,
            },
    {
        let ghost s = self.icons@;
        let ghost step_i = icon_step(icon_size, spacing);
        let ghost icon_i = (icon_size as i16) as int;
        proof {
            lemma_mapped_before_bound(s, s.len() as int);
        }
        let icon: i16 = icon_size as i16;
        let mut icon_x: i16 = 0;
        let mut i: usize = 0;
        assert(mapped_before(s, 0) == 0);
        assert(0 * step_i == 0);
        while i < self.icons.len()
            invariant
                s == self.icons@,
                step_i == icon_step(icon_size, spacing),
                icon_i == icon as int,
                icon_i == (icon_size as i16) as int,
                i <= s.len(),
                places_fit(mapped_count(s), step_i, icon_i),
                forall|m: int| 0 <= m <= s.len() ==> mapped_before(s, m) <= mapped_count(s),
                icon_x as int == mapped_before(s, i as int) * step_i,
                button_target_from(s, x as int, step_i, icon_i, i as int) == button_target_from(
                    s,
                    x as int,
                    step_i,
                    icon_i,
                    0,
                ),
            decreases s.len() - i,
        {
            let ic = self.icons[i];
            if ic.mapped {
                let ghost k = mapped_before(s, i as int);
                proof {
                    assert(mapped_before(s, i + 1) == k + 1);
                    assert(fits_i16(k * step_i) && fits_i16(k * step_i + icon_i));
                    assert(fits_i16((k + 1) * step_i));
                    assert(fits_i16(1 * step_i));
                    assert((k + 1) * step_i == k * step_i + step_i) by (nonlinear_arith);
                }
                if x >= icon_x && x < icon_x + icon {
                    let d: i16 = x - icon_x;
                    assert(button_target_from(s, x as int, step_i, icon_i, i as int) == Some(
                        (ic.window, d as int),
                    ));
                    assert((d as int) as i16 == d);
                    return Some((ic.window, d));
                }
                let step: i16 = (icon_size as i16) + (spacing as i16);
                icon_x = icon_x + step;
            }
            i = i + 1;
        }
        None
    }

    /// The tray's width for its mapped icons: each icon's size, with the
    /// spacing between them; `None` when no icon is mapped (the size is
    /// then left alone).
    pub fn tray_width(&self, icon_size: u32, spacing: u32) -> (w: Option<u32>)
        requires
            mapped_count(self.icons_spec()) <= u32::MAX,
            mapped_count(self.icons_spec()) > 0 ==> mapped_count(self.icons_spec()) * icon_size + (
            mapped_count(self.icons_spec()) - 1) * spacing <= u32::MAX,
        ensures
            w == if mapped_count(self.icons_spec()) == 0 {
                None
            } else {
                Some(
                    (mapped_count(self.icons_spec()) * icon_size + (mapped_count(self.icons_spec())
                        - 1) * spacing) as u32,
                )
            },
    {
        let n = self.mapped_count();
        if n == 0 {
            return None;
        }
        let nn = n as u32;
        assert(nn as int == n);
        assert(0 <= (nn - 1) * spacing) by (nonlinear_arith)
            requires
                nn >= 1,
        ;
        assert(nn * icon_size <= u32::MAX && (nn - 1) * spacing <= u32::MAX) by (nonlinear_arith)
            requires
                nn >= 1,
                nn * icon_size + (nn - 1) * spacing <= u32::MAX,
                0 <= (nn - 1) * spacing,
        ;
        Some(nn * icon_size + (nn - 1) * spacing)
    }

    /// What an event does to the docked icons and asks of the caller (see
    /// `event_spec`).
    pub fn handle_event(&mut self, ev: TrayEvent, ids: TrayIds, icon_size: u32, spacing: u32) -> (r: TrayReaction)
        requires
            button_on_tray(ev, ids) ==> places_fit(
                mapped_count(old(self).icons_spec()),
                icon_step(icon_size, spacing),
                (icon_size as i16) as int,
            ),
        ensures
            (final(self).icons_spec(), r) == event_spec(old(self).icons_spec(), ev, ids, icon_size, spacing),
    {
        match ev {
            TrayEvent::ClientMessage { message_type, window, data1, data2 } => {
                if message_type == ids.opcode_atom {
                    if data1 == SYSTEM_TRAY_REQUEST_DOCK {
                        TrayReaction::Dock(data2)
                    } else {
                        TrayReaction::Nothing
                    }
                } else if message_type == ids.xembed_atom && data1 == XEMBED_REQUEST_FOCUS
                    && self.contains(window) {
                    TrayReaction::FocusIcon(window)
                } else {
                    TrayReaction::Nothing
                }
            },
            TrayEvent::DestroyNotify { window } => match self.find(window) {
                Some(i) => {
                    self.remove_at(i);
                    TrayReaction::Reposition
                },
                None => TrayReaction::Nothing,
            },
            TrayEvent::ReparentNotify { window, parent } => {
                if parent != ids.tray_window {
                    match self.find(window) {
                        Some(i) => {
                            self.remove_at(i);
                            TrayReaction::Reposition
                        },
                        None => TrayReaction::Nothing,
                    }
                } else {
                    TrayReaction::Nothing
                }
            },
            TrayEvent::UnmapNotify { window } => match self.find(window) {
                Some(i) => {
                    self.set_mapped_at(i, false);
                    TrayReaction::Reposition
                },
                None => TrayReaction::Nothing,
            },
            TrayEvent::MapNotify { window } => match self.find(window) {
                Some(i) => {
                    if !self.icons[i].mapped {
                        self.set_mapped_at(i, true);
                        TrayReaction::Reposition
                    } else {
                        TrayReaction::Nothing
                    }
                },
                None => TrayReaction::Nothing,
            },
            TrayEvent::ButtonPress { event, x, y, detail } => {
                if event == ids.tray_window {
                    self.button_reaction(x, y, detail, true, icon_size, spacing)
                } else {
                    TrayReaction::Nothing
                }
            },
            TrayEvent::ButtonRelease { event, x, y, detail } => {
                if event == ids.tray_window {
                    self.button_reaction(x, y, detail, false, icon_size, spacing)
                } else {
                    TrayReaction::Nothing
                }
            },
            TrayEvent::Other => TrayReaction::Nothing,
        }
    }

    /// Diagnostic information about the tray.
    pub fn diagnostics(&self, is_owner: bool, tray_window: u32, selection_window: u32) -> (d: String)
        ensures
            d@ == diagnostics_spec(is_owner, tray_window, selection_window, self.icons_spec()),
    {
        let mut d = String::from_str("XEmbed Tray Diagnostics:\n  Owner: ");
        d.append(bool_to_string(is_owner).as_str());
        d.append("\n  Tray window: ");
        d.append(u64_to_string(tray_window as u64).as_str());
        d.append("\n  Selection window: ");
        d.append(u64_to_string(selection_window as u64).as_str());
        d.append("\n  Icons: ");
        d.append(u64_to_string(self.icons.len() as u64).as_str());
        d.append("\n");
        let ghost head = d@;
        assert(head =~= "XEmbed Tray Diagnostics:\n  Owner: "@ + bool_text(is_owner) + "\n  Tray window: "@
            + dec_nat(tray_window as nat) + "\n  Selection window: "@ + dec_nat(selection_window as nat)
            + "\n  Icons: "@ + dec_nat(self.icons@.len()) + "\n"@);
        let mut i: usize = 0;
        while i < self.icons.len()
            invariant
                i <= self.icons@.len(),
                d@ == head + icon_lines(self.icons@.take(i as int)),
            decreases self.icons@.len() - i,
        {
            let ic = self.icons[i];
            let mut line = String::from_str("  - Icon ");
            line.append(u64_to_string(ic.window as u64).as_str());
            line.append(": ");
            line.append(u64_to_string(ic.width as u64).as_str());
            line.append("x");
            line.append(u64_to_string(ic.height as u64).as_str());
            line.append(", mapped=");
            line.append(bool_to_string(ic.mapped).as_str());
            line.append("\n");
            assert(line@ =~= icon_line(ic));
            proof {
                assert(self.icons@.take(i + 1).drop_last() =~= self.icons@.take(i as int));
            }
            d.append(line.as_str());
            i = i + 1;
            assert(d@ =~= head + icon_lines(self.icons@.take(i as int)));
        }
        assert(self.icons@.take(self.icons@.len() as int) =~= self.icons@);
        d
    }

    fn button_reaction(&self, x: i16, y: i16, button: u8, pressed: bool, icon_size: u32, spacing: u32) -> (r: TrayReaction)
        requires
            places_fit(
                mapped_count(self.icons_spec()),
                icon_step(icon_size, spacing),
                (icon_size as i16) as int,
            ),
        ensures
            r == button_reaction(self.icons_spec(), x, y, button, pressed, icon_size, spacing),
    {
        match self.button_target(x, icon_size, spacing) {
            Some((w, lx)) => TrayReaction::Forward { window: w, x: lx, y: y, button: button, pressed: pressed },
            None => TrayReaction::Unhandled(TrayButtonEvent { x: x, y: y, button: button, pressed: pressed }),
        }
    }
}

/// A position setting names the tray's sides: the tray is on the left
/// exactly for "top-left" and "bottom-left" (then its left edge is the
/// monitor's left edge plus the offset), and at the bottom exactly for
/// "bottom-left" and "bottom-right" (then its bottom edge is the
/// monitor's bottom edge less the offset); any other setting, including
/// "top-right", puts it top right.
pub proof fn law_corner_sides(
    position: Seq<char>,
    mon_x: i16,
    mon_y: i16,
    mon_width: u16,
    mon_height: u16,
    tray_width: i16,
    tray_height: i16,
    offset_x: i16,
    offset_y: i16,
)
    ensures
        (corner_spec(position) == Corner::TopLeft || corner_spec(position) == Corner::BottomLeft)
            <==> (position == "top-left"@ || position == "bottom-left"@),
        (corner_spec(position) == Corner::BottomLeft || corner_spec(position) == Corner::BottomRight)
            <==> (position == "bottom-left"@ || position == "bottom-right"@),
        (position == "top-left"@ || position == "bottom-left"@) ==> tray_x_spec(
            corner_spec(position),
            mon_x,
            mon_width,
            tray_width,
            offset_x,
        ) == mon_x + offset_x,
        (position == "bottom-left"@ || position == "bottom-right"@) ==> tray_y_spec(
            corner_spec(position),
            mon_y,
            mon_height,
            tray_height,
            offset_y,
        ) + tray_height + offset_y == mon_y + (mon_height as i16),
{
    reveal_strlit("top-left");
    reveal_strlit("bottom-left");
    reveal_strlit("bottom-right");
    assert("top-left"@[0] != "bottom-left"@[0]);
    assert("top-left"@ != "bottom-left"@);
    assert("top-left"@[0] != "bottom-right"@[0]);
    assert("top-left"@ != "bottom-right"@);
    assert("bottom-left"@[7] != "bottom-right"@[7]);
    assert("bottom-left"@ != "bottom-right"@);
}

} // verus!
