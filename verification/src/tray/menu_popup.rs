//! Context menu popups: the size of a menu, where its rows lie, which row
//! the pointer is over, keyboard navigation, and what a click or a key
//! does.

use vstd::prelude::*;
use crate::text::{byte_len, str_byte_len, str_eq};
use crate::tray::menu::MenuItem;

verus! {

/// Height of a regular row.
pub const ITEM_HEIGHT: i32 = 28;
/// Horizontal padding of a row.
pub const ITEM_PADDING_X: i32 = 12;
/// Height of a separator row.
pub const SEPARATOR_HEIGHT: i32 = 8;
/// Padding above the first and below the last row.
pub const MENU_PADDING: i32 = 4;

/// Result of menu interaction.
#[derive(Debug, Clone, Copy, PartialEq, Eq, Structural)]
pub enum MenuAction {
    /// No action taken
    Nothing,
    /// User clicked a menu item
    ItemClicked(i32),
    /// User opened a submenu
    SubmenuOpened(i32),
    /// Menu was dismissed
    Dismissed,
}

/// Where a row lies, for hit testing.
#[derive(Debug, Clone, Copy, PartialEq, Eq, Structural)]
pub struct ItemRect {
    pub y: i32,
    pub height: i32,
    pub item_id: i32,
    pub has_submenu: bool,
    pub enabled: bool,
}

/// Whether an item is drawn as a separator.
pub open spec fn is_separator(item: MenuItem) -> bool {
    item.item_type@ == "separator"@
}

/// Height an item takes in the menu.
pub open spec fn item_height(item: MenuItem) -> nat {
    if !item.visible {
        0
    } else if is_separator(item) {
        SEPARATOR_HEIGHT as nat
    } else {
        ITEM_HEIGHT as nat
    }
}

/// Width an item asks for: eight pixels per label byte, padding on both
/// sides and forty pixels for a check box or an arrow.
pub open spec fn item_width(item: MenuItem) -> nat {
    if item.visible && !is_separator(item) {
        match item.label {
            Some(l) => byte_len(l@) * 8 + ITEM_PADDING_X as nat * 2 + 40,
            None => 0,
        }
    } else {
        0
    }
}

/// Total height of the rows of `items`.
pub open spec fn rows_height(items: Seq<MenuItem>) -> nat
    decreases items.len(),
{
    if items.len() == 0 {
        0
    } else {
        rows_height(items.drop_last()) + item_height(items.last())
    }
}

/// Widest width asked for by `items`, at least 150.
pub open spec fn rows_width(items: Seq<MenuItem>) -> nat
    decreases items.len(),
{
    if items.len() == 0 {
        150
    } else {
        let a = rows_width(items.drop_last());
        let b = item_width(items.last());
        if a >= b {
            a
        } else {
            b
        }
    }
}

/// Size of the menu for `items`: the widest row (at least 150 wide) and
/// the rows' height plus padding (at least 20 high).
pub open spec fn menu_size_spec(items: Seq<MenuItem>) -> (nat, nat) {
    let h = rows_height(items) + 2 * MENU_PADDING as nat;
    (rows_width(items), if h >= 20 {
        h
    } else {
        20
    })
}

/// The sizes involved stay within the machine integers.
pub open spec fn menu_fits(items: Seq<MenuItem>) -> bool {
    &&& items.len() * ITEM_HEIGHT + 2 * MENU_PADDING <= i32::MAX
    &&& forall|i: int|
        0 <= i < items.len() ==> ((#[trigger] items[i]).label matches Some(l) ==> byte_len(l@)
            * 8 + 64 <= u32::MAX)
}

proof fn lemma_rows_height_bound(items: Seq<MenuItem>)
    ensures
        rows_height(items) <= items.len() * ITEM_HEIGHT,
    decreases items.len(),
{
    if items.len() > 0 {
        lemma_rows_height_bound(items.drop_last());
    }
}

proof fn lemma_rows_width_min(items: Seq<MenuItem>)
    ensures
        rows_width(items) >= 150,
    decreases items.len(),
{
    if items.len() > 0 {
        lemma_rows_width_min(items.drop_last());
    }
}

proof fn lemma_rows_width_bound(items: Seq<MenuItem>)
    requires
        menu_fits(items),
    ensures
        rows_width(items) <= u32::MAX,
    decreases items.len(),
{
    if items.len() > 0 {
        assert(menu_fits(items.drop_last())) by {
            lemma_rows_height_bound(items.drop_last());
            assert forall|i: int| 0 <= i < items.drop_last().len() implies ((
            #[trigger] items.drop_last()[i]).label matches Some(l) ==> byte_len(l@) * 8 + 64
                <= u32::MAX) by {
                assert(items.drop_last()[i] == items[i]);
            }
        }
        lemma_rows_width_bound(items.drop_last());
        assert(items.last() == items[items.len() - 1]);
    }
}

/// The size the menu needs for `items`.
pub fn calculate_size(items: &Vec<MenuItem>) -> (r: (u32, u32))
    requires
        menu_fits(items@),
    ensures
        (r.0 as nat, r.1 as nat) == menu_size_spec(items@),
{
    let mut width: u32 = 150;
    let mut height: u32 = (MENU_PADDING * 2) as u32;
    let n = items.len();
    let mut i: usize = 0;
    proof {
        lemma_rows_height_bound(items@);
    }
    while i < n
        invariant
            n == items@.len(),
            i <= n,
            menu_fits(items@),
            width as nat == rows_width(items@.take(i as int)),
            height as nat == rows_height(items@.take(i as int)) + 2 * MENU_PADDING as nat,
        decreases n - i,
    {
        let item = &items[i];
        proof {
            assert(items@.take(i + 1).drop_last() =~= items@.take(i as int));
            assert(items@.take(i + 1).last() == items@[i as int]);
            lemma_rows_height_bound(items@.take(i + 1));
        }
        if item.visible {
            if str_eq(item.item_type.as_str(), "separator") {
                height = height + SEPARATOR_HEIGHT as u32;
            } else {
                height = height + ITEM_HEIGHT as u32;
                match &item.label {
                    Some(label) => {
                        proof {
                            assert(byte_len(label@) * 8 + 64 <= u32::MAX) by {
                                assert(items@[i as int].label == Some(*label));
                            }
                        }
                        let len = str_byte_len(label.as_str());
                        let text_width = (len * 8) as u32 + ITEM_PADDING_X as u32 * 2;
                        if text_width + 40 > width {
                            width = text_width + 40;
                        }
                    },
                    None => {},
                }
            }
        }
        i = i + 1;
    }
    assert(items@.take(n as int) =~= items@);
    proof {
        lemma_rows_width_min(items@);
    }
    let w = if width >= 100 {
        width
    } else {
        100
    };
    let h = if height >= 20 {
        height
    } else {
        20
    };
    (w, h)
}

/// The rows for `items`, from `start` down: invisible items take no row,
/// separators are short and disabled, other rows are enabled as their
/// item is and have a submenu when their item has children.
pub open spec fn layout_spec(items: Seq<MenuItem>, start: int) -> Seq<ItemRect>
    decreases items.len(),
{
    if items.len() == 0 {
        Seq::empty()
    } else {
        let prev = layout_spec(items.drop_last(), start);
        let y = start + rows_height(items.drop_last());
        let item = items.last();
        if !item.visible {
            prev
        } else if is_separator(item) {
            prev.push(
                ItemRect {
                    y: y as i32,
                    height: SEPARATOR_HEIGHT,
                    item_id: item.id,
                    has_submenu: false,
                    enabled: false,
                },
            )
        } else {
            prev.push(
                ItemRect {
                    y: y as i32,
                    height: ITEM_HEIGHT,
                    item_id: item.id,
                    has_submenu: item.children@.len() > 0,
                    enabled: item.enabled,
                },
            )
        }
    }
}

/// The rows of the menu for `items`, starting below the top padding.
pub fn layout_item_rects(items: &Vec<MenuItem>) -> (r: Vec<ItemRect>)
    requires
        menu_fits(items@),
    ensures
        r@ == layout_spec(items@, MENU_PADDING as int),
{
    let mut rects: Vec<ItemRect> = Vec::new();
    let mut y: i32 = MENU_PADDING;
    let n = items.len();
    let mut i: usize = 0;
    while i < n
        invariant
            n == items@.len(),
            i <= n,
            menu_fits(items@),
            y as int == MENU_PADDING + rows_height(items@.take(i as int)),
            rects@ == layout_spec(items@.take(i as int), MENU_PADDING as int),
        decreases n - i,
    {
        let item = &items[i];
        proof {
            assert(items@.take(i + 1).drop_last() =~= items@.take(i as int));
            assert(items@.take(i + 1).last() == items@[i as int]);
            lemma_rows_height_bound(items@.take(i + 1));
        }
        if item.visible {
            if str_eq(item.item_type.as_str(), "separator") {
                rects.push(
                    ItemRect {
                        y,
                        height: SEPARATOR_HEIGHT,
                        item_id: item.id,
                        has_submenu: false,
                        enabled: false,
                    },
                );
                y = y + SEPARATOR_HEIGHT;
            } else {
                rects.push(
                    ItemRect {
                        y,
                        height: ITEM_HEIGHT,
                        item_id: item.id,
                        has_submenu: item.children.len() > 0,
                        enabled: item.enabled,
                    },
                );
                y = y + ITEM_HEIGHT;
            }
        }
        i = i + 1;
    }
    assert(items@.take(n as int) =~= items@);
    rects
}

/// Every row's bottom edge is a machine integer.
pub open spec fn rects_fit(rects: Seq<ItemRect>) -> bool {
    forall|i: int|
        0 <= i < rects.len() ==> i32::MIN <= #[trigger] rects[i].y + rects[i].height <= i32::MAX
}

/// Whether row `r` covers height `y`.
pub open spec fn rect_covers(r: ItemRect, y: int) -> bool {
    r.y <= y < r.y + r.height
}

/// The first row that covers `y`.
pub open spec fn hit_spec(rects: Seq<ItemRect>, y: int) -> Option<int> {
    if exists|i: int| 0 <= i < rects.len() && rect_covers(#[trigger] rects[i], y) {
        Some(
            choose|i: int|
                0 <= i < rects.len() && rect_covers(#[trigger] rects[i], y) && forall|j: int|
                    0 <= j < i ==> !rect_covers(#[trigger] rects[j], y),
        )
    } else {
        None
    }
}

/// The index of the first row that covers `y`, if any.
pub fn hit_test(rects: &Vec<ItemRect>, y: i32) -> (r: Option<usize>)
    requires
        rects_fit(rects@),
    ensures
        match r {
            Some(i) => i < rects@.len() && rect_covers(rects@[i as int], y as int) && forall|j: int|
                0 <= j < i ==> !rect_covers(#[trigger] rects@[j], y as int),
            None => forall|j: int|
                0 <= j < rects@.len() ==> !rect_covers(#[trigger] rects@[j], y as int),
        },
{
    let n = rects.len();
    let mut i: usize = 0;
    while i < n
        invariant
            n == rects@.len(),
            i <= n,
            rects_fit(rects@),
            forall|j: int| 0 <= j < i ==> !rect_covers(#[trigger] rects@[j], y as int),
        decreases n - i,
    {
        let r = rects[i];
        assert(i32::MIN <= r.y + r.height <= i32::MAX);
        if y >= r.y && y < r.y + r.height {
            return Some(i);
        }
        i = i + 1;
    }
    None
}

/// The sign of `d`: -1, 0 or 1.
pub open spec fn signum(d: int) -> int {
    if d > 0 {
        1
    } else if d < 0 {
        -1
    } else {
        0
    }
}

/// Where keyboard navigation starts: the hovered row (or the first) moved
/// by `delta`, wrapping past either end.
pub open spec fn wrapped_start(len: int, hover: Option<usize>, delta: int) -> int {
    let current = match hover {
        Some(h) => h as int,
        None => 0,
    };
    let n = current + delta;
    if n < 0 {
        len - 1
    } else if n >= len {
        0
    } else {
        n
    }
}

/// The `k`-th row visited when searching from `start` in direction `step`.
pub open spec fn visit(len: int, start: int, step: int, k: int) -> int {
    (start + k * step) % len
}

/// The first enabled row among the visits `k .. bound`.
pub open spec fn scan_spec(rects: Seq<ItemRect>, start: int, step: int, k: int, bound: int) -> Option<int>
    decreases bound - k,
{
    if k >= bound {
        None
    } else if rects[visit(rects.len() as int, start, step, k)].enabled {
        Some(visit(rects.len() as int, start, step, k))
    } else {
        scan_spec(rects, start, step, k + 1, bound)
    }
}

/// The hovered row after moving by `delta`: from the wrapped start,
/// disabled rows (separators among them) are skipped in the direction of
/// `delta`, wrapping around; the hover stays as it was when there are no
/// rows or no enabled row is reached before coming back to the start.
pub open spec fn move_hover_spec(rects: Seq<ItemRect>, hover: Option<usize>, delta: int) -> Option<usize> {
    let len = rects.len() as int;
    if len == 0 {
        hover
    } else {
        let start = wrapped_start(len, hover, delta);
        let bound = if delta == 0 {
            1
        } else {
            len
        };
        match scan_spec(rects, start, signum(delta), 0, bound) {
            Some(i) => Some(i as usize),
            None => hover,
        }
    }
}

proof fn lemma_visit_step(len: int, start: int, step: int, k: int)
    requires
        len > 0,
        0 <= start < len,
        -1 <= step <= 1,
        k >= 0,
    ensures
        0 <= visit(len, start, step, k) < len,
        visit(len, start, step, k + 1) == (visit(len, start, step, k) + step) % len,
{
    assert((start + (k + 1) * step) == (start + k * step) + step) by (nonlinear_arith);
    vstd::arithmetic::div_mod::lemma_add_mod_noop_right(step, start + k * step, len);
    assert(step + (start + k * step) % len == visit(len, start, step, k) + step);
    assert(step + (start + k * step) == start + (k + 1) * step);
    vstd::arithmetic::div_mod::lemma_mod_bound(start + k * step, len);
}

proof fn lemma_visit_returns(len: int, start: int, step: int, k: int)
    requires
        len > 0,
        0 <= start < len,
        step == 1 || step == -1,
        0 < k < len,
    ensures
        visit(len, start, step, k) != start,
{
    if step == 1 {
        assert(k * step == k) by (nonlinear_arith)
            requires
                step == 1,
        ;
        if start + k < len {
            vstd::arithmetic::div_mod::lemma_small_mod((start + k) as nat, len as nat);
        } else {
            vstd::arithmetic::div_mod::lemma_mod_add_multiples_vanish(start + k - len, len);
            assert(len + (start + k - len) == start + k);
            vstd::arithmetic::div_mod::lemma_small_mod((start + k - len) as nat, len as nat);
        }
    } else {
        assert(k * step == -k) by (nonlinear_arith)
            requires
                step == -1,
        ;
        if start - k >= 0 {
            vstd::arithmetic::div_mod::lemma_small_mod((start - k) as nat, len as nat);
        } else {
            vstd::arithmetic::div_mod::lemma_mod_sub_multiples_vanish(start - k + len, len);
            assert(-len + (start - k + len) == start - k);
            vstd::arithmetic::div_mod::lemma_small_mod((start - k + len) as nat, len as nat);
        }
    }
}

/// The hovered row after moving by `delta` (the arrow keys move by one).
pub fn move_hover(rects: &Vec<ItemRect>, hover: Option<usize>, delta: i32) -> (r: Option<usize>)
    requires
        rects@.len() <= i32::MAX,
        hover matches Some(h) ==> h <= i32::MAX,
        i32::MIN <= (match hover {
            Some(h) => h as int,
            None => 0,
        }) + delta <= i32::MAX,
    ensures
        r == move_hover_spec(rects@, hover, delta as int),
{
    let n = rects.len();
    if n == 0 {
        return hover;
    }
    let len = n as i32;
    let current: i32 = match hover {
        Some(h) => h as i32,
        None => 0,
    };
    let mut new_idx = current + delta;
    if new_idx < 0 {
        new_idx = len - 1;
    } else if new_idx >= len {
        new_idx = 0;
    }
    let step: i32 = if delta > 0 {
        1
    } else if delta < 0 {
        -1
    } else {
        0
    };
    let start_idx = new_idx;
    let ghost start = start_idx as int;
    if step == 0 {
        proof {
            assert(visit(len as int, start, 0, 0) == start) by {
                vstd::arithmetic::div_mod::lemma_small_mod(start as nat, len as nat);
            }
        }
        if rects[start_idx as usize].enabled {
            assert(scan_spec(rects@, start, 0, 0, 1) == Some(start));
            return Some(start_idx as usize);
        } else {
            assert(scan_spec(rects@, start, 0, 1, 1) is None);
            assert(scan_spec(rects@, start, 0, 0, 1) is None);
            return hover;
        }
    }
    let ghost bound: int = if delta == 0 {
        1
    } else {
        len as int
    };
    let ghost mut k: int = 0;
    assert(start == wrapped_start(len as int, hover, delta as int));
    assert(visit(len as int, start, step as int, 0) == start) by {
        vstd::arithmetic::div_mod::lemma_small_mod(start as nat, len as nat);
    }
    loop
        invariant
            n == rects@.len(),
            len == n,
            0 < len,
            0 <= start < len,
            start == start_idx,
            start == wrapped_start(rects@.len() as int, hover, delta as int),
            step == signum(delta as int),
            step != 0,
            delta != 0,
            bound == len as int,
            0 <= k < bound,
            new_idx == visit(len as int, start, step as int, k),
            0 <= new_idx < len,
            scan_spec(rects@, start, step as int, 0, bound) == scan_spec(
                rects@,
                start,
                step as int,
                k,
                bound,
            ),
        decreases bound - k,
    {
        assert(len as int == rects@.len());
        if rects[new_idx as usize].enabled {
            assert(scan_spec(rects@, start, step as int, k, bound) == Some(new_idx as int));
            assert(scan_spec(rects@, start, signum(delta as int), 0, bound) == Some(new_idx as int));
            assert(rects@.len() as int != 0);
            assert(wrapped_start(rects@.len() as int, hover, delta as int) == start);
            assert((if delta as int == 0 { 1 } else { rects@.len() as int }) == bound);
            assert(move_hover_spec(rects@, hover, delta as int) == Some(new_idx as usize));
            return Some(new_idx as usize);
        }
        assert(scan_spec(rects@, start, step as int, k, bound) == scan_spec(
            rects@,
            start,
            step as int,
            k + 1,
            bound,
        ));
        proof {
            lemma_visit_step(len as int, start, step as int, k);
        }
        let moved = new_idx + step;
        new_idx = if moved < 0 {
            moved + len
        } else if moved >= len {
            moved - len
        } else {
            moved
        };
        proof {
            let m = moved as int;
            if m < 0 {
                vstd::arithmetic::div_mod::lemma_mod_add_multiples_vanish(m, len as int);
                vstd::arithmetic::div_mod::lemma_small_mod((m + len) as nat, len as nat);
            } else if m >= len {
                vstd::arithmetic::div_mod::lemma_mod_sub_multiples_vanish(m, len as int);
                vstd::arithmetic::div_mod::lemma_small_mod((m - len) as nat, len as nat);
            } else {
                vstd::arithmetic::div_mod::lemma_small_mod(m as nat, len as nat);
            }
        }
        proof {
            k = k + 1;
        }
        if new_idx == start_idx {
            proof {
                if step != 0 && k < bound {
                    lemma_visit_returns(len as int, start, step as int, k);
                }
                if step == 0 {
                    assert(k == bound);
                }
                assert(k >= bound);
                assert(scan_spec(rects@, start, step as int, k, bound) is None);
            }
            return hover;
        }
        proof {
            if k >= bound {
                assert(k == len);
                assert(visit(len as int, start, step as int, k) == start) by {
                    assert(start + k * step == start + len * step);
                    vstd::arithmetic::div_mod::lemma_mod_multiples_vanish(step as int, start, len as int);
                    vstd::arithmetic::div_mod::lemma_small_mod(start as nat, len as nat);
                }
            }
        }
    }
}

/// What a press of mouse button `button` at height `y` does.
pub open spec fn click_spec(rects: Seq<ItemRect>, y: int, button: u8) -> MenuAction {
    if button == 1 {
        match hit_spec(rects, y) {
            Some(i) => if rects[i].enabled {
                if rects[i].has_submenu {
                    MenuAction::SubmenuOpened(rects[i].item_id)
                } else {
                    MenuAction::ItemClicked(rects[i].item_id)
                }
            } else {
                MenuAction::Nothing
            },
            None => MenuAction::Nothing,
        }
    } else if button == 3 {
        MenuAction::Dismissed
    } else {
        MenuAction::Nothing
    }
}

/// What a press of mouse button `button` at height `y` does: the left
/// button on an enabled row opens its submenu or clicks it, the right
/// button dismisses the menu, anything else does nothing.
pub fn click_action(rects: &Vec<ItemRect>, y: i32, button: u8) -> (a: MenuAction)
    requires
        rects_fit(rects@),
    ensures
        a == click_spec(rects@, y as int, button),
        button == 1 ==> a == match hit_spec(rects@, y as int) {
            Some(i) => if rects@[i].enabled {
                if rects@[i].has_submenu {
                    MenuAction::SubmenuOpened(rects@[i].item_id)
                } else {
                    MenuAction::ItemClicked(rects@[i].item_id)
                }
            } else {
                MenuAction::Nothing
            },
            None => MenuAction::Nothing,
        },
        button == 3 ==> a == MenuAction::Dismissed,
        button != 1 && button != 3 ==> a == MenuAction::Nothing,
{
    if button == 1 {
        let hit = hit_test(rects, y);
        proof {
            lemma_hit_spec(rects@, y as int, hit);
        }
        match hit {
            Some(idx) => {
                let rect = rects[idx];
                if rect.enabled {
                    if rect.has_submenu {
                        MenuAction::SubmenuOpened(rect.item_id)
                    } else {
                        MenuAction::ItemClicked(rect.item_id)
                    }
                } else {
                    MenuAction::Nothing
                }
            },
            None => MenuAction::Nothing,
        }
    } else if button == 3 {
        MenuAction::Dismissed
    } else {
        MenuAction::Nothing
    }
}

proof fn lemma_hit_spec(rects: Seq<ItemRect>, y: int, hit: Option<usize>)
    requires
        match hit {
            Some(i) => i < rects.len() && rect_covers(rects[i as int], y) && forall|j: int|
                0 <= j < i ==> !rect_covers(#[trigger] rects[j], y),
            None => forall|j: int| 0 <= j < rects.len() ==> !rect_covers(#[trigger] rects[j], y),
        },
    ensures
        hit_spec(rects, y) == match hit {
            Some(i) => Some(i as int),
            None => None,
        },
{
    match hit {
        Some(i) => {
            assert(rect_covers(rects[i as int], y));
            let c = choose|c: int|
                0 <= c < rects.len() && rect_covers(#[trigger] rects[c], y) && forall|j: int|
                    0 <= j < c ==> !rect_covers(#[trigger] rects[j], y);
            assert(c == i as int) by {
                if c < i {
                    assert(!rect_covers(rects[c], y));
                } else if c > i {
                    assert(!rect_covers(rects[i as int], y));
                }
            }
        },
        None => {},
    }
}

/// The key codes the menu reacts to.
pub const KEY_ESCAPE: u8 = 9;
pub const KEY_RETURN: u8 = 36;
pub const KEY_UP: u8 = 111;
pub const KEY_DOWN: u8 = 116;

/// What key `keycode` does: the action, the new hover and whether to
/// redraw.
pub open spec fn key_spec(rects: Seq<ItemRect>, hover: Option<usize>, keycode: u8) -> (
    MenuAction,
    Option<usize>,
    bool,
) {
    if keycode == KEY_ESCAPE {
        (MenuAction::Dismissed, hover, false)
    } else if keycode == KEY_RETURN {
        (match hover {
            Some(i) => if rects[i as int].enabled && !rects[i as int].has_submenu {
                MenuAction::ItemClicked(rects[i as int].item_id)
            } else {
                MenuAction::Nothing
            },
            None => MenuAction::Nothing,
        }, hover, false)
    } else if keycode == KEY_UP {
        (MenuAction::Nothing, move_hover_spec(rects, hover, -1), true)
    } else if keycode == KEY_DOWN {
        (MenuAction::Nothing, move_hover_spec(rects, hover, 1), true)
    } else {
        (MenuAction::Nothing, hover, false)
    }
}

/// What key `keycode` does: Escape dismisses, Return clicks the hovered
/// row when it is enabled and has no submenu, Up and Down move the hover
/// (the second result is the new hover and whether to redraw).
pub fn key_action(rects: &Vec<ItemRect>, hover: Option<usize>, keycode: u8) -> (r: (
    MenuAction,
    Option<usize>,
    bool,
))
    requires
        rects@.len() <= i32::MAX,
        hover matches Some(h) ==> h < rects@.len(),
    ensures
        keycode == KEY_ESCAPE ==> r == (MenuAction::Dismissed, hover, false),
        keycode == KEY_RETURN ==> r == (match hover {
            Some(i) => if rects@[i as int].enabled && !rects@[i as int].has_submenu {
                MenuAction::ItemClicked(rects@[i as int].item_id)
            } else {
                MenuAction::Nothing
            },
            None => MenuAction::Nothing,
        }, hover, false),
        keycode == KEY_UP ==> r == (MenuAction::Nothing, move_hover_spec(rects@, hover, -1), true),
        keycode == KEY_DOWN ==> r == (MenuAction::Nothing, move_hover_spec(rects@, hover, 1), true),
        keycode != KEY_ESCAPE && keycode != KEY_RETURN && keycode != KEY_UP && keycode != KEY_DOWN
            ==> r == (MenuAction::Nothing, hover, false),
        r == key_spec(rects@, hover, keycode),
{
    if keycode == KEY_ESCAPE {
        return (MenuAction::Dismissed, hover, false);
    }
    if keycode == KEY_RETURN {
        let action = match hover {
            Some(idx) => {
                let rect = rects[idx];
                if rect.enabled && !rect.has_submenu {
                    MenuAction::ItemClicked(rect.item_id)
                } else {
                    MenuAction::Nothing
                }
            },
            None => MenuAction::Nothing,
        };
        return (action, hover, false);
    }
    if keycode == KEY_UP {
        return (MenuAction::Nothing, move_hover(rects, hover, -1), true);
    }
    if keycode == KEY_DOWN {
        return (MenuAction::Nothing, move_hover(rects, hover, 1), true);
    }
    (MenuAction::Nothing, hover, false)
}

/// An X event on the menu window, with what the menu reads of it; `ours`
/// says whether it is for the menu's window.
#[derive(Debug, Clone, Copy, PartialEq, Eq, Structural)]
pub enum PopupEvent {
    /// Exposure
    Expose { ours: bool },
    /// A pointer press at height `y`
    ButtonPress { ours: bool, y: i32, button: u8 },
    /// Pointer motion at height `y`
    Motion { ours: bool, y: i32 },
    /// The pointer left the window
    Leave { ours: bool },
    /// A key press
    KeyPress { ours: bool, keycode: u8 },
    /// Focus left the window
    FocusOut { ours: bool },
    /// Anything else
    Other,
}

/// The row at height `y`, as an index.
pub open spec fn hit_index(rects: Seq<ItemRect>, y: int) -> Option<usize> {
    match hit_spec(rects, y) {
        Some(i) => Some(i as usize),
        None => None,
    }
}

/// What an event does to the menu: the action, the new hover and whether
/// to redraw. Events for other windows do nothing. Exposure redraws; a
/// press acts as `click_spec` says; motion hovers the row under the
/// pointer, redrawing when that changes; leaving clears the hover; a key
/// acts as `key_spec` says; losing focus dismisses the menu.
pub open spec fn menu_event_spec(rects: Seq<ItemRect>, hover: Option<usize>, ev: PopupEvent) -> (
    MenuAction,
    Option<usize>,
    bool,
) {
    match ev {
        PopupEvent::Expose { ours } => (MenuAction::Nothing, hover, ours),
        PopupEvent::ButtonPress { ours, y, button } => if ours {
            (click_spec(rects, y as int, button), hover, false)
        } else {
            (MenuAction::Nothing, hover, false)
        },
        PopupEvent::Motion { ours, y } => if ours && hit_index(rects, y as int) != hover {
            (MenuAction::Nothing, hit_index(rects, y as int), true)
        } else {
            (MenuAction::Nothing, hover, false)
        },
        PopupEvent::Leave { ours } => if ours && hover is Some {
            (MenuAction::Nothing, None, true)
        } else {
            (MenuAction::Nothing, hover, false)
        },
        PopupEvent::KeyPress { ours, keycode } => if ours {
            key_spec(rects, hover, keycode)
        } else {
            (MenuAction::Nothing, hover, false)
        },
        PopupEvent::FocusOut { ours } => (if ours {
            MenuAction::Dismissed
        } else {
            MenuAction::Nothing
        }, hover, false),
        PopupEvent::Other => (MenuAction::Nothing, hover, false),
    }
}

/// What an event does to the menu (see `menu_event_spec`).
pub fn menu_event(rects: &Vec<ItemRect>, hover: Option<usize>, ev: PopupEvent) -> (r: (
    MenuAction,
    Option<usize>,
    bool,
))
    requires
        rects_fit(rects@),
        rects@.len() <= i32::MAX,
        hover matches Some(h) ==> h < rects@.len(),
    ensures
        r == menu_event_spec(rects@, hover, ev),
{
    match ev {
        PopupEvent::Expose { ours } => (MenuAction::Nothing, hover, ours),
        PopupEvent::ButtonPress { ours, y, button } => if ours {
            (click_action(rects, y, button), hover, false)
        } else {
            (MenuAction::Nothing, hover, false)
        },
        PopupEvent::Motion { ours, y } => {
            let h = hit_test(rects, y);
            proof {
                lemma_hit_spec(rects@, y as int, h);
            }
            if ours && h != hover {
                (MenuAction::Nothing, h, true)
            } else {
                (MenuAction::Nothing, hover, false)
            }
        },
        PopupEvent::Leave { ours } => if ours && hover.is_some() {
            (MenuAction::Nothing, None, true)
        } else {
            (MenuAction::Nothing, hover, false)
        },
        PopupEvent::KeyPress { ours, keycode } => if ours {
            key_action(rects, hover, keycode)
        } else {
            (MenuAction::Nothing, hover, false)
        },
        PopupEvent::FocusOut { ours } => (if ours {
            MenuAction::Dismissed
        } else {
            MenuAction::Nothing
        }, hover, false),
        PopupEvent::Other => (MenuAction::Nothing, hover, false),
    }
}

/// Where the menu goes so that it stays on screen: moved left (up) by the
/// overflow, but not past zero.
pub open spec fn clamp_origin(p: int, size: int, screen: int) -> int {
    if p + size > screen {
        if screen - size >= 0 {
            screen - size
        } else {
            0
        }
    } else {
        p
    }
}

/// The menu's position for a request at (x, y).
pub fn menu_position(x: i32, y: i32, width: u32, height: u32, screen_width: i32, screen_height: i32) -> (r: (i32, i32))
    requires
        width <= i32::MAX,
        height <= i32::MAX,
        i32::MIN <= x + width <= i32::MAX,
        i32::MIN <= y + height <= i32::MAX,
        i32::MIN <= screen_width - width,
        i32::MIN <= screen_height - height,
    ensures
        r.0 as int == clamp_origin(x as int, width as int, screen_width as int),
        r.1 as int == clamp_origin(y as int, height as int, screen_height as int),
{
    let w = width as i32;
    let h = height as i32;
    let fx = if x + w > screen_width {
        if screen_width - w >= 0 {
            screen_width - w
        } else {
            0
        }
    } else {
        x
    };
    let fy = if y + h > screen_height {
        if screen_height - h >= 0 {
            screen_height - h
        } else {
            0
        }
    } else {
        y
    };
    (fx, fy)
}

// ---------------------------------------------------------------------
// Laws
// ---------------------------------------------------------------------

proof fn lemma_scan_finds(rects: Seq<ItemRect>, start: int, step: int, k: int, bound: int, target_k: int)
    requires
        rects.len() > 0,
        0 <= start < rects.len(),
        -1 <= step <= 1,
        0 <= k <= target_k < bound,
        rects[visit(rects.len() as int, start, step, target_k)].enabled,
    ensures
        scan_spec(rects, start, step, k, bound) is Some,
    decreases target_k - k,
{
    if k < target_k && !rects[visit(rects.len() as int, start, step, k)].enabled {
        lemma_scan_finds(rects, start, step, k + 1, bound, target_k);
    }
}

proof fn lemma_scan_enabled(rects: Seq<ItemRect>, start: int, step: int, k: int, bound: int)
    requires
        rects.len() > 0,
        0 <= start < rects.len(),
        -1 <= step <= 1,
        0 <= k,
    ensures
        scan_spec(rects, start, step, k, bound) matches Some(i) ==> 0 <= i < rects.len()
            && rects[i].enabled,
    decreases bound - k,
{
    if k < bound {
        lemma_visit_step(rects.len() as int, start, step, k);
        if !rects[visit(rects.len() as int, start, step, k)].enabled {
            lemma_scan_enabled(rects, start, step, k + 1, bound);
        }
    }
}

/// Keyboard navigation lands only on enabled rows, and when some row is
/// enabled the arrow keys always land on one.
pub proof fn law_move_hover_lands_on_enabled(rects: Seq<ItemRect>, hover: Option<usize>, delta: int)
    requires
        delta == 1 || delta == -1,
        rects.len() <= usize::MAX,
        hover matches Some(h) ==> h < rects.len(),
    ensures
        move_hover_spec(rects, hover, delta) != hover ==> (move_hover_spec(rects, hover, delta) matches Some(i) && i < rects.len() && rects[i as int].enabled),
        (exists|j: int| 0 <= j < rects.len() && (#[trigger] rects[j]).enabled) ==> (
        move_hover_spec(rects, hover, delta) matches Some(i) && i < rects.len()
            && rects[i as int].enabled),
{
    let len = rects.len() as int;
    if len > 0 {
        let start = wrapped_start(len, hover, delta);
        let step = signum(delta);
        assert(move_hover_spec(rects, hover, delta) == match scan_spec(rects, start, step, 0, len) {
            Some(i) => Some(i as usize),
            None => hover,
        });
        lemma_scan_enabled(rects, start, step, 0, len);
        if exists|j: int| 0 <= j < rects.len() && (#[trigger] rects[j]).enabled {
            let j = choose|j: int| 0 <= j < rects.len() && (#[trigger] rects[j]).enabled;
            // the visit that reaches j
            let tk = if step == 1 {
                if j >= start {
                    j - start
                } else {
                    j - start + len
                }
            } else {
                if j <= start {
                    start - j
                } else {
                    start - j + len
                }
            };
            assert(visit(len, start, step, tk) == j) by {
                if step == 1 {
                    assert(tk * step == tk) by (nonlinear_arith)
                        requires
                            step == 1,
                    ;
                    if j >= start {
                        vstd::arithmetic::div_mod::lemma_small_mod(j as nat, len as nat);
                    } else {
                        assert(start + tk == j + len);
                        vstd::arithmetic::div_mod::lemma_mod_add_multiples_vanish(j, len);
                        vstd::arithmetic::div_mod::lemma_small_mod(j as nat, len as nat);
                    }
                } else {
                    assert(tk * step == -tk) by (nonlinear_arith)
                        requires
                            step == -1,
                    ;
                    if j <= start {
                        vstd::arithmetic::div_mod::lemma_small_mod(j as nat, len as nat);
                    } else {
                        assert(start - tk == j - len);
                        vstd::arithmetic::div_mod::lemma_mod_sub_multiples_vanish(j, len);
                        vstd::arithmetic::div_mod::lemma_small_mod(j as nat, len as nat);
                    }
                }
            }
            lemma_scan_finds(rects, start, step, 0, len, tk);
        }
    }
}

} // verus!
