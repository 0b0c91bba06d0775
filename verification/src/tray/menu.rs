//! D-Bus menus (com.canonical.dbusmenu) exposed by tray items: the menu
//! item tree, how an item is built from its properties, and the textual
//! summary of a tree.

use vstd::prelude::*;
use crate::text::{bool_text, debug_quoted, debug_str, dec_int, dec_nat, i64_to_string, push_char, views};

verus! {

/// A menu item and its visible submenu.
#[derive(Debug)]
pub struct MenuItem {
    /// Item ID
    pub id: i32,
    /// Label text
    pub label: Option<String>,
    /// Icon name
    pub icon_name: Option<String>,
    /// Whether item is enabled
    pub enabled: bool,
    /// Whether item is visible
    pub visible: bool,
    /// Item type (standard, separator, etc.)
    pub item_type: String,
    /// Toggle type (checkmark, radio)
    pub toggle_type: Option<String>,
    /// Toggle state (0 = off, 1 = on)
    pub toggle_state: i32,
    /// Submenu items
    pub children: Vec<MenuItem>,
}

impl Default for MenuItem {
    fn default() -> (m: Self)
        ensures
            m.id == 0,
            m.label is None,
            m.icon_name is None,
            m.enabled,
            m.visible,
            m.item_type@ == "standard"@,
            m.toggle_type is None,
            m.toggle_state == 0,
            m.children@.len() == 0,
    {
        MenuItem {
            id: 0,
            label: None,
            icon_name: None,
            enabled: true,
            visible: true,
            item_type: String::from_str("standard"),
            toggle_type: None,
            toggle_state: 0,
            children: Vec::new(),
        }
    }
}

/// `s` without its mnemonic underscores.
pub open spec fn strip_mnemonics_spec(s: Seq<char>) -> Seq<char> {
    s.filter(|c: char| c != '_')
}

/// Removes the underscores that mark mnemonics in a label.
pub fn strip_mnemonics(s: &str) -> (r: String)
    ensures
        r@ == strip_mnemonics_spec(s@),
{
    let n = s.unicode_len();
    let mut r = String::new();
    let mut i: usize = 0;
    while i < n
        invariant
            n == s@.len(),
            i <= n,
            r@ == strip_mnemonics_spec(s@.take(i as int)),
        decreases n - i,
    {
        let c = s.get_char(i);
        proof {
            assert(s@.take(i + 1).drop_last() =~= s@.take(i as int));
            reveal_with_fuel(Seq::filter, 1);
        }
        if c != '_' {
            push_char(&mut r, c);
        }
        i = i + 1;
    }
    assert(s@.take(n as int) =~= s@);
    r
}

/// The item for the properties read from a menu layout. Missing
/// properties take their defaults (enabled, visible, type "standard",
/// toggle state 0); the label loses its mnemonic underscores, an empty
/// toggle type counts as none, and invisible children are left out.
pub fn menu_item_from_properties(
    id: i32,
    label: Option<&str>,
    icon_name: Option<String>,
    enabled: Option<bool>,
    visible: Option<bool>,
    item_type: Option<String>,
    toggle_type: Option<String>,
    toggle_state: Option<i32>,
    children: Vec<MenuItem>,
) -> (m: MenuItem)
    ensures
        m.id == id,
        match label {
            Some(l) => m.label matches Some(ml) && ml@ == strip_mnemonics_spec(l@),
            None => m.label is None,
        },
        m.icon_name == icon_name,
        m.enabled == match enabled {
            Some(b) => b,
            None => true,
        },
        m.visible == match visible {
            Some(b) => b,
            None => true,
        },
        match item_type {
            Some(t) => m.item_type == t,
            None => m.item_type@ == "standard"@,
        },
        match toggle_type {
            Some(t) => if t@.len() == 0 {
                m.toggle_type is None
            } else {
                m.toggle_type == Some(t)
            },
            None => m.toggle_type is None,
        },
        m.toggle_state == match toggle_state {
            Some(v) => v,
            None => 0,
        },
        m.children@ == children@.filter(|c: MenuItem| c.visible),
{
    let ghost given = children@;
    let mut rest = children;
    let mut kept: Vec<MenuItem> = Vec::new();
    let ghost mut i: int = 0;
    while rest.len() > 0
        invariant
            0 <= i <= given.len(),
            rest@ == given.skip(i),
            kept@ == given.take(i).filter(|c: MenuItem| c.visible),
        decreases rest@.len(),
    {
        let child = rest.remove(0);
        proof {
            assert(child == given[i]);
            assert(given.take(i + 1).drop_last() =~= given.take(i));
            assert(given.take(i + 1).last() == child);
            reveal_with_fuel(Seq::filter, 1);
            assert(rest@ =~= given.skip(i + 1));
            i = i + 1;
        }
        if child.visible {
            kept.push(child);
        }
    }
    proof {
        assert(given.skip(i).len() == 0);
        assert(given.take(i) =~= given);
    }
    let label = match label {
        Some(l) => Some(strip_mnemonics(l)),
        None => None,
    };
    let toggle_type = match toggle_type {
        Some(t) => if t.as_str().is_empty() {
            None
        } else {
            Some(t)
        },
        None => None,
    };
    MenuItem {
        id,
        label,
        icon_name,
        enabled: match enabled {
            Some(b) => b,
            None => true,
        },
        visible: match visible {
            Some(b) => b,
            None => true,
        },
        item_type: match item_type {
            Some(t) => t,
            None => String::from_str("standard"),
        },
        toggle_type,
        toggle_state: match toggle_state {
            Some(v) => v,
            None => 0,
        },
        children: kept,
    }
}

/// A node of a menu layout as read from com.canonical.dbusmenu: its id,
/// the properties the menu reads (each `None` when absent or not of the
/// expected type), and its children in layout order.
#[derive(Debug)]
pub struct MenuLayout {
    pub id: i32,
    pub label: Option<String>,
    pub icon_name: Option<String>,
    pub enabled: Option<bool>,
    pub visible: Option<bool>,
    pub item_type: Option<String>,
    pub toggle_type: Option<String>,
    pub toggle_state: Option<i32>,
    pub children: Vec<MenuLayout>,
}

/// Whether the item for a layout node is visible (by default it is).
pub open spec fn layout_visible(l: MenuLayout) -> bool {
    match l.visible {
        Some(b) => b,
        None => true,
    }
}

/// `m` carries the properties of layout node `l`, as
/// `menu_item_from_properties` reads them.
pub open spec fn props_from_layout(m: MenuItem, l: MenuLayout) -> bool {
    &&& m.id == l.id
    &&& match l.label {
        Some(s) => m.label matches Some(ml) && ml@ == strip_mnemonics_spec(s@),
        None => m.label is None,
    }
    &&& m.icon_name == l.icon_name
    &&& m.enabled == match l.enabled {
        Some(b) => b,
        None => true,
    }
    &&& m.visible == layout_visible(l)
    &&& match l.item_type {
        Some(t) => m.item_type == t,
        None => m.item_type@ == "standard"@,
    }
    &&& match l.toggle_type {
        Some(t) => if t@.len() == 0 {
            m.toggle_type is None
        } else {
            m.toggle_type == Some(t)
        },
        None => m.toggle_type is None,
    }
    &&& m.toggle_state == match l.toggle_state {
        Some(v) => v,
        None => 0,
    }
}

/// `m` is the item tree built from layout node `l`: its properties, and
/// as children the items built from the visible children of `l`, in
/// layout order.
pub open spec fn built_from(m: MenuItem, l: MenuLayout) -> bool
    decreases l, 1int,
{
    props_from_layout(m, l) && children_built(m.children@, l.children@)
}

/// `ms` are the items built from the visible nodes of `ls`, in order.
pub open spec fn children_built(ms: Seq<MenuItem>, ls: Seq<MenuLayout>) -> bool
    decreases ls, 0int,
{
    if ls.len() == 0 {
        ms.len() == 0
    } else {
        let l = ls[ls.len() - 1];
        let rest = ls.subrange(0, ls.len() - 1);
        if layout_visible(l) {
            ms.len() > 0 && built_from(ms[ms.len() - 1], l) && children_built(
                ms.subrange(0, ms.len() - 1),
                rest,
            )
        } else {
            children_built(ms, rest)
        }
    }
}

/// Every item of `ms` is built from the node of `ls` at the same place.
pub open spec fn all_built(ms: Seq<MenuItem>, ls: Seq<MenuLayout>) -> bool {
    &&& ms.len() == ls.len()
    &&& forall|k: int| 0 <= k < ls.len() ==> built_from(#[trigger] ms[k], ls[k])
}

proof fn lemma_visible_children_built(ms: Seq<MenuItem>, ls: Seq<MenuLayout>)
    requires
        all_built(ms, ls),
    ensures
        children_built(ms.filter(|c: MenuItem| c.visible), ls),
    decreases ls.len(),
{
    reveal_with_fuel(Seq::filter, 1);
    if ls.len() > 0 {
        let n = ls.len() - 1;
        let ms0 = ms.subrange(0, n);
        let ls0 = ls.subrange(0, n);
        assert(ms.drop_last() =~= ms0);
        assert(all_built(ms0, ls0)) by {
            assert forall|k: int| 0 <= k < ls0.len() implies built_from(#[trigger] ms0[k], ls0[k]) by {
                assert(built_from(ms[k], ls[k]));
            }
        }
        lemma_visible_children_built(ms0, ls0);
        assert(built_from(ms[n], ls[n]));
        let f = ms.filter(|c: MenuItem| c.visible);
        let f0 = ms0.filter(|c: MenuItem| c.visible);
        if ms[n].visible {
            assert(f == f0.push(ms[n]));
            assert(f.subrange(0, f.len() - 1) =~= f0);
        } else {
            assert(f == f0);
        }
    }
}

/// Builds the item tree of a menu layout (see `built_from`): each node
/// becomes an item with its properties read as `menu_item_from_properties`
/// reads them, and keeps the items of its visible children in layout
/// order.
#[verifier::loop_isolation(false)]
pub fn menu_from_layout(layout: MenuLayout) -> (m: MenuItem)
    ensures
        built_from(m, layout),
    decreases layout,
{
    let ghost whole = layout;
    let MenuLayout {
        id,
        label,
        icon_name,
        enabled,
        visible,
        item_type,
        toggle_type,
        toggle_state,
        children,
    } = layout;
    let ghost given = children@;
    let mut rest = children;
    let mut items: Vec<MenuItem> = Vec::new();
    let ghost mut i: int = 0;
    while rest.len() > 0
        invariant
            0 <= i <= given.len(),
            given == whole.children@,
            rest@ == given.skip(i),
            all_built(items@, given.take(i)),
        decreases rest@.len(),
    {
        let child = rest.remove(0);
        proof {
            assert(child == given[i]);
            assert(decreases_to!(whole => whole.children@));
            assert(decreases_to!(whole.children@ => whole.children@[i]));
            assert(decreases_to!(whole => child));
        }
        let item = menu_from_layout(child);
        items.push(item);
        proof {
            assert(rest@ =~= given.skip(i + 1));
            let t = given.take(i + 1);
            assert forall|k: int| 0 <= k < t.len() implies built_from(#[trigger] items@[k], t[k]) by {
                if k < i {
                    assert(t[k] == given.take(i)[k]);
                }
            }
            i = i + 1;
        }
    }
    proof {
        assert(given.take(i) =~= given);
        lemma_visible_children_built(items@, given);
    }
    let label_ref: Option<&str> = match &label {
        Some(l) => Some(l.as_str()),
        None => None,
    };
    menu_item_from_properties(
        id,
        label_ref,
        icon_name,
        enabled,
        visible,
        item_type,
        toggle_type,
        toggle_state,
        items,
    )
}

/// A D-Bus value as the menu reads it from a layout: the kinds the menu
/// looks at, and `Other` for every other kind. A variant keeps its
/// wrapper, as the layout's own values do.
#[derive(Debug)]
pub enum DbusValue {
    Bool(bool),
    I32(i32),
    Str(String),
    Variant(Box<DbusValue>),
    Structure(Vec<DbusValue>),
    Array(Vec<DbusValue>),
    Dict(Vec<(DbusValue, DbusValue)>),
    Other,
}

/// The characters of an optional string.
pub open spec fn opt_chars(o: Option<String>) -> Option<Seq<char>> {
    match o {
        Some(s) => Some(s@),
        None => None,
    }
}

/// The value of the last property named `key` (a later entry replaces an
/// earlier one, as when the properties are collected into a map).
pub open spec fn prop_of(props: Seq<(String, DbusValue)>, key: Seq<char>) -> Option<DbusValue>
    decreases props.len(),
{
    if props.len() == 0 {
        None
    } else if props.last().0@ == key {
        Some(props.last().1)
    } else {
        prop_of(props.drop_last(), key)
    }
}

/// A text property; `None` when absent or not text.
pub open spec fn str_prop(props: Seq<(String, DbusValue)>, key: Seq<char>) -> Option<Seq<char>> {
    match prop_of(props, key) {
        Some(DbusValue::Str(s)) => Some(s@),
        _ => None,
    }
}

/// A boolean property; `None` when absent or not a boolean.
pub open spec fn bool_prop(props: Seq<(String, DbusValue)>, key: Seq<char>) -> Option<bool> {
    match prop_of(props, key) {
        Some(DbusValue::Bool(b)) => Some(b),
        _ => None,
    }
}

/// A 32-bit integer property; `None` when absent or of another type.
pub open spec fn i32_prop(props: Seq<(String, DbusValue)>, key: Seq<char>) -> Option<i32> {
    match prop_of(props, key) {
        Some(DbusValue::I32(v)) => Some(v),
        _ => None,
    }
}

/// The entries of a dictionary whose keys are text, in order.
pub open spec fn text_keyed(entries: Seq<(DbusValue, DbusValue)>) -> Seq<(String, DbusValue)>
    decreases entries.len(),
{
    if entries.len() == 0 {
        Seq::empty()
    } else {
        let rest = text_keyed(entries.drop_last());
        match entries.last().0 {
            DbusValue::Str(k) => rest.push((k, entries.last().1)),
            _ => rest,
        }
    }
}

/// The properties a child's second field holds: the text-keyed entries
/// of a dictionary, none for anything else.
pub open spec fn dict_props(v: DbusValue) -> Seq<(String, DbusValue)> {
    match v {
        DbusValue::Dict(entries) => text_keyed(entries@),
        _ => Seq::empty(),
    }
}

/// The children a child's third field holds: the items of an array, none
/// for anything else.
pub open spec fn array_items(v: DbusValue) -> Seq<DbusValue> {
    match v {
        DbusValue::Array(items) => items@,
        _ => Seq::empty(),
    }
}

/// What an element of a children array describes: a structure of at
/// least three fields whose first is a 32-bit integer is a child (its
/// id, properties and children); anything else describes none.
pub open spec fn child_parts(v: DbusValue) -> Option<(i32, Seq<(String, DbusValue)>, Seq<DbusValue>)> {
    match v {
        DbusValue::Structure(fields) => if fields@.len() >= 3 {
            match fields@[0] {
                DbusValue::I32(id) => Some((id, dict_props(fields@[1]), array_items(fields@[2]))),
                _ => None,
            }
        } else {
            None
        },
        _ => None,
    }
}

/// `l` is the layout node read from an id, its properties and its
/// children array: each property read by its key (absent or wrong-typed
/// ones left `None`, so that they keep their defaults), and as children
/// the nodes read from the elements that describe a child, in order.
pub open spec fn layout_matches(
    l: MenuLayout,
    id: i32,
    props: Seq<(String, DbusValue)>,
    children: Seq<DbusValue>,
) -> bool
    decreases l, 0int,
{
    &&& l.id == id
    &&& opt_chars(l.label) == str_prop(props, "label"@)
    &&& opt_chars(l.icon_name) == str_prop(props, "icon-name"@)
    &&& l.enabled == bool_prop(props, "enabled"@)
    &&& l.visible == bool_prop(props, "visible"@)
    &&& opt_chars(l.item_type) == str_prop(props, "type"@)
    &&& opt_chars(l.toggle_type) == str_prop(props, "toggle-type"@)
    &&& l.toggle_state == i32_prop(props, "toggle-state"@)
    &&& children_match(l.children@, children)
}

/// `ls` are the nodes read from the elements of `vs` that describe a
/// child, in order.
pub open spec fn children_match(ls: Seq<MenuLayout>, vs: Seq<DbusValue>) -> bool
    decreases ls, vs.len(),
{
    if vs.len() == 0 {
        ls.len() == 0
    } else {
        match child_parts(vs.last()) {
            Some((cid, cprops, gchildren)) => ls.len() > 0 && layout_matches(
                ls[ls.len() - 1],
                cid,
                cprops,
                gchildren,
            ) && children_match(ls.subrange(0, ls.len() - 1), vs.drop_last()),
            None => children_match(ls, vs.drop_last()),
        }
    }
}

/// The place of the last property named `key`.
fn prop_index(props: &Vec<(String, DbusValue)>, key: &str) -> (r: Option<usize>)
    ensures
        match r {
            Some(i) => i < props@.len() && prop_of(props@, key@) == Some(props@[i as int].1),
            None => prop_of(props@, key@) is None,
        },
{
    let mut i: usize = props.len();
    proof {
        assert(props@.take(i as int) =~= props@);
    }
    while i > 0
        invariant
            i <= props@.len(),
            prop_of(props@, key@) == prop_of(props@.take(i as int), key@),
        decreases i,
    {
        proof {
            assert(props@.take(i as int).drop_last() =~= props@.take(i - 1));
        }
        if crate::text::str_eq(props[i - 1].0.as_str(), key) {
            return Some(i - 1);
        }
        i = i - 1;
    }
    proof {
        assert(props@.take(0) =~= Seq::<(String, DbusValue)>::empty());
    }
    None
}

fn str_prop_exec(props: &Vec<(String, DbusValue)>, key: &str) -> (r: Option<String>)
    ensures
        opt_chars(r) == str_prop(props@, key@),
{
    match prop_index(props, key) {
        Some(i) => match &props[i].1 {
            DbusValue::Str(s) => Some(s.clone()),
            _ => None,
        },
        None => None,
    }
}

fn bool_prop_exec(props: &Vec<(String, DbusValue)>, key: &str) -> (r: Option<bool>)
    ensures
        r == bool_prop(props@, key@),
{
    match prop_index(props, key) {
        Some(i) => match &props[i].1 {
            DbusValue::Bool(b) => Some(*b),
            _ => None,
        },
        None => None,
    }
}

fn i32_prop_exec(props: &Vec<(String, DbusValue)>, key: &str) -> (r: Option<i32>)
    ensures
        r == i32_prop(props@, key@),
{
    match prop_index(props, key) {
        Some(i) => match &props[i].1 {
            DbusValue::I32(v) => Some(*v),
            _ => None,
        },
        None => None,
    }
}

/// The text-keyed entries of a dictionary value (see `dict_props`).
fn dict_props_exec(v: DbusValue) -> (r: Vec<(String, DbusValue)>)
    ensures
        r@ == dict_props(v),
{
    match v {
        DbusValue::Dict(entries) => {
            let ghost given = entries@;
            let mut rest = entries;
            let mut out: Vec<(String, DbusValue)> = Vec::new();
            let ghost mut i: int = 0;
            proof {
                assert(given.take(0) =~= Seq::<(DbusValue, DbusValue)>::empty());
            }
            while rest.len() > 0
                invariant
                    0 <= i <= given.len(),
                    rest@ == given.skip(i),
                    out@ == text_keyed(given.take(i)),
                decreases rest@.len(),
            {
                let (k, val) = rest.remove(0);
                proof {
                    assert((k, val) == given[i]);
                    assert(given.take(i + 1).drop_last() =~= given.take(i));
                    assert(given.take(i + 1).last() == given[i]);
                    assert(rest@ =~= given.skip(i + 1));
                }
                match k {
                    DbusValue::Str(name) => out.push((name, val)),
                    _ => {},
                }
                proof {
                    i = i + 1;
                }
            }
            proof {
                assert(given.take(i) =~= given);
            }
            out
        },
        _ => Vec::new(),
    }
}

/// Reads a layout node from its id, its properties and its children
/// array (see `layout_matches`).
#[verifier::loop_isolation(false)]
pub fn layout_from_dbus(id: i32, props: &Vec<(String, DbusValue)>, children: Vec<DbusValue>) -> (l:
    MenuLayout)
    ensures
        layout_matches(l, id, props@, children@),
    decreases children@,
{
    let label = str_prop_exec(props, "label");
    let icon_name = str_prop_exec(props, "icon-name");
    let enabled = bool_prop_exec(props, "enabled");
    let visible = bool_prop_exec(props, "visible");
    let item_type = str_prop_exec(props, "type");
    let toggle_type = str_prop_exec(props, "toggle-type");
    let toggle_state = i32_prop_exec(props, "toggle-state");
    let ghost given = children@;
    let mut rest = children;
    let mut kids: Vec<MenuLayout> = Vec::new();
    let ghost mut i: int = 0;
    proof {
        assert(given.take(0) =~= Seq::<DbusValue>::empty());
    }
    while rest.len() > 0
        invariant
            0 <= i <= given.len(),
            rest@ == given.skip(i),
            children_match(kids@, given.take(i)),
        decreases rest@.len(),
    {
        let v = rest.remove(0);
        let ghost gv = v;
        let ghost old_kids = kids@;
        proof {
            assert(v == given[i]);
            assert(rest@ =~= given.skip(i + 1));
        }
        match v {
            DbusValue::Structure(fields) => {
                let ghost gf = fields@;
                if fields.len() >= 3 {
                    let mut fields = fields;
                    let third = fields.remove(2);
                    let second = fields.remove(1);
                    let first = fields.remove(0);
                    proof {
                        assert(third == gf[2] && second == gf[1] && first == gf[0]);
                    }
                    match first {
                        DbusValue::I32(cid) => {
                            let cprops = dict_props_exec(second);
                            let gkids = match third {
                                DbusValue::Array(items) => items,
                                _ => Vec::new(),
                            };
                            proof {
                                assert(gkids@ == array_items(gf[2]));
                                if let DbusValue::Array(items) = gf[2] {
                                    assert(decreases_to!(given => given[i]));
                                    assert(decreases_to!(gv => gf[2]));
                                    assert(decreases_to!(gf[2] => items@));
                                    assert(decreases_to!(given => gkids@));
                                }
                            }
                            let child = layout_from_dbus(cid, &cprops, gkids);
                            kids.push(child);
                        },
                        _ => {},
                    }
                }
            },
            _ => {},
        }
        proof {
            let t = given.take(i + 1);
            assert(t.drop_last() =~= given.take(i));
            assert(t.last() == gv);
            if child_parts(gv) is Some {
                assert(kids@.subrange(0, kids@.len() - 1) =~= old_kids);
            } else {
                assert(kids@ == old_kids);
            }
            i = i + 1;
        }
    }
    proof {
        assert(given.take(i) =~= given);
    }
    MenuLayout {
        id,
        label,
        icon_name,
        enabled,
        visible,
        item_type,
        toggle_type,
        toggle_state,
        children: kids,
    }
}

/// Builds the item tree of a menu from its D-Bus layout: the root's id,
/// properties and children array read as `layout_matches` says, then
/// built as `built_from` says.
pub fn menu_from_dbus(id: i32, props: &Vec<(String, DbusValue)>, children: Vec<DbusValue>) -> (m:
    MenuItem)
    ensures
        exists|l: MenuLayout| layout_matches(l, id, props@, children@) && #[trigger] built_from(m, l),
{
    let layout = layout_from_dbus(id, props, children);
    let ghost g = layout;
    let m = menu_from_layout(layout);
    assert(layout_matches(g, id, props@, children@) && built_from(m, g));
    m
}

/// The `Debug` text of an optional string.
pub open spec fn debug_option_str(o: Option<String>) -> Seq<char> {
    match o {
        Some(s) => "Some("@ + debug_str(s@) + ")"@,
        None => "None"@,
    }
}

/// Two spaces per level.
pub open spec fn indent_spec(depth: nat) -> Seq<char> {
    Seq::new(2 * depth, |i: int| ' ')
}

/// The summary line of one item.
pub open spec fn summary_line(item: MenuItem, depth: nat) -> Seq<char> {
    indent_spec(depth) + "["@ + dec_int(item.id as int) + "] "@ + (match item.label {
        Some(l) => l@,
        None => "(no label)"@,
    }) + " (type="@ + item.item_type@ + ", enabled="@ + bool_text(item.enabled) + ", toggle="@
        + debug_option_str(item.toggle_type) + ":"@ + dec_int(item.toggle_state as int) + ")\n"@
}

/// The summary of an item and its submenu, one line per item, each level
/// indented by two more spaces.
pub open spec fn summary_spec(item: MenuItem, depth: nat) -> Seq<char>
    decreases item, 0nat,
{
    summary_line(item, depth) + children_summary(item.children@, depth + 1)
}

/// The summaries of a list of items at the same depth.
pub open spec fn children_summary(items: Seq<MenuItem>, depth: nat) -> Seq<char>
    decreases items, 1nat,
{
    if items.len() == 0 {
        Seq::empty()
    } else {
        children_summary(items.drop_last(), depth) + summary_spec(items.last(), depth)
    }
}

/// The number of levels of an item's tree below it.
pub open spec fn tree_height(item: MenuItem) -> nat
    decreases item, 0nat,
{
    1 + children_height(item.children@)
}

/// The largest height among a list of items.
pub open spec fn children_height(items: Seq<MenuItem>) -> nat
    decreases items, 1nat,
{
    if items.len() == 0 {
        0
    } else {
        let a = children_height(items.drop_last());
        let b = tree_height(items.last());
        if a >= b {
            a
        } else {
            b
        }
    }
}

/// Whether `s` holds no line feed.
pub open spec fn no_lf(s: Seq<char>) -> bool {
    forall|i: int| 0 <= i < s.len() ==> #[trigger] s[i] != '\n'
}

/// The number of line feeds in `s`.
pub open spec fn lf_count(s: Seq<char>) -> nat
    decreases s.len(),
{
    if s.len() == 0 {
        0
    } else {
        lf_count(s.drop_last()) + if s.last() == '\n' {
            1nat
        } else {
            0nat
        }
    }
}

/// Whether an item's own label and type hold no line feed.
pub open spec fn item_text_lf_free(item: MenuItem) -> bool {
    &&& match item.label {
        Some(l) => no_lf(l@),
        None => true,
    }
    &&& no_lf(item.item_type@)
}

/// Whether no label or type in an item's tree holds a line feed.
pub open spec fn tree_lf_free(item: MenuItem) -> bool
    decreases item, 0nat,
{
    item_text_lf_free(item) && children_lf_free(item.children@)
}

/// Whether no label or type in the trees of `items` holds a line feed.
pub open spec fn children_lf_free(items: Seq<MenuItem>) -> bool
    decreases items, 1nat,
{
    if items.len() == 0 {
        true
    } else {
        children_lf_free(items.drop_last()) && tree_lf_free(items.last())
    }
}

/// The number of items in an item's tree, the item included.
pub open spec fn node_count(item: MenuItem) -> nat
    decreases item, 0nat,
{
    1 + children_node_count(item.children@)
}

/// The number of items in the trees of `items`.
pub open spec fn children_node_count(items: Seq<MenuItem>) -> nat
    decreases items, 1nat,
{
    if items.len() == 0 {
        0
    } else {
        children_node_count(items.drop_last()) + node_count(items.last())
    }
}

proof fn lemma_lf_count_add(a: Seq<char>, b: Seq<char>)
    ensures
        lf_count(a + b) == lf_count(a) + lf_count(b),
    decreases b.len(),
{
    if b.len() == 0 {
        assert(a + b =~= a);
    } else {
        lemma_lf_count_add(a, b.drop_last());
        assert((a + b).drop_last() =~= a + b.drop_last());
        assert((a + b).last() == b.last());
    }
}

proof fn lemma_lf_free(s: Seq<char>)
    requires
        no_lf(s),
    ensures
        lf_count(s) == 0,
    decreases s.len(),
{
    if s.len() > 0 {
        lemma_lf_free(s.drop_last());
    }
}

proof fn lemma_no_lf_add(a: Seq<char>, b: Seq<char>)
    requires
        no_lf(a),
        no_lf(b),
    ensures
        no_lf(a + b),
{
    assert forall|i: int| 0 <= i < (a + b).len() implies #[trigger] (a + b)[i] != '\n' by {
        if i < a.len() {
            assert((a + b)[i] == a[i]);
        } else {
            assert((a + b)[i] == b[i - a.len()]);
        }
    }
}

proof fn lemma_dec_int_no_lf(n: int)
    ensures
        no_lf(dec_int(n)),
{
    let m: nat = if n < 0 {
        (-n) as nat
    } else {
        n as nat
    };
    crate::text::lemma_dec_nat_digits(m);
    assert(no_lf(dec_nat(m))) by {
        assert forall|i: int| 0 <= i < dec_nat(m).len() implies #[trigger] dec_nat(m)[i] != '\n' by {
            assert(crate::text::is_digit(dec_nat(m)[i]));
        }
    }
    if n < 0 {
        assert(no_lf(seq!['-']));
        lemma_no_lf_add(seq!['-'], dec_nat(m));
    }
}

/// The summary line of an item whose label and type hold no line feed,
/// and whose toggle type's quoted form holds none, has exactly one: at
/// its end.
proof fn lemma_summary_line_lf(item: MenuItem, depth: nat)
    requires
        item_text_lf_free(item),
        item.toggle_type matches Some(t) ==> no_lf(debug_str(t@)),
    ensures
        lf_count(summary_line(item, depth)) == 1,
{
    reveal_strlit("[");
    reveal_strlit("] ");
    reveal_strlit("(no label)");
    reveal_strlit(" (type=");
    reveal_strlit(", enabled=");
    reveal_strlit("true");
    reveal_strlit("false");
    reveal_strlit(", toggle=");
    reveal_strlit("Some(");
    reveal_strlit(")");
    reveal_strlit("None");
    reveal_strlit(":");
    reveal_strlit(")\n");
    let label = match item.label {
        Some(l) => l@,
        None => "(no label)"@,
    };
    let toggle = debug_option_str(item.toggle_type);
    lemma_dec_int_no_lf(item.id as int);
    lemma_dec_int_no_lf(item.toggle_state as int);
    assert(no_lf(indent_spec(depth)));
    assert(no_lf("["@));
    assert(no_lf("] "@));
    assert(no_lf(label));
    assert(no_lf(" (type="@));
    assert(no_lf(", enabled="@));
    assert(no_lf(bool_text(item.enabled)));
    assert(no_lf(", toggle="@));
    assert(no_lf(toggle)) by {
        match item.toggle_type {
            Some(t) => {
                assert(no_lf("Some("@));
                assert(no_lf(")"@));
                lemma_no_lf_add("Some("@, debug_str(t@));
                lemma_no_lf_add("Some("@ + debug_str(t@), ")"@);
            },
            None => {},
        }
    }
    assert(no_lf(":"@));
    let p1 = indent_spec(depth) + "["@;
    lemma_no_lf_add(indent_spec(depth), "["@);
    let p2 = p1 + dec_int(item.id as int);
    lemma_no_lf_add(p1, dec_int(item.id as int));
    let p3 = p2 + "] "@;
    lemma_no_lf_add(p2, "] "@);
    let p4 = p3 + label;
    lemma_no_lf_add(p3, label);
    let p5 = p4 + " (type="@;
    lemma_no_lf_add(p4, " (type="@);
    let p6 = p5 + item.item_type@;
    lemma_no_lf_add(p5, item.item_type@);
    let p7 = p6 + ", enabled="@;
    lemma_no_lf_add(p6, ", enabled="@);
    let p8 = p7 + bool_text(item.enabled);
    lemma_no_lf_add(p7, bool_text(item.enabled));
    let p9 = p8 + ", toggle="@;
    lemma_no_lf_add(p8, ", toggle="@);
    let p10 = p9 + toggle;
    lemma_no_lf_add(p9, toggle);
    let p11 = p10 + ":"@;
    lemma_no_lf_add(p10, ":"@);
    let p12 = p11 + dec_int(item.toggle_state as int);
    lemma_no_lf_add(p11, dec_int(item.toggle_state as int));
    assert(summary_line(item, depth) == p12 + ")\n"@);
    lemma_lf_free(p12);
    lemma_lf_count_add(p12, ")\n"@);
    assert(lf_count(")\n"@) == 1) by {
        assert(")\n"@.drop_last() =~= ")"@);
        lemma_lf_free(")"@);
    }
}

proof fn lemma_child_lf_free(items: Seq<MenuItem>, i: int)
    requires
        children_lf_free(items),
        0 <= i < items.len(),
    ensures
        tree_lf_free(items[i]),
    decreases items.len(),
{
    if i < items.len() - 1 {
        lemma_child_lf_free(items.drop_last(), i);
    }
}

/// Two spaces per level.
fn indent(depth: usize) -> (r: String)
    ensures
        r@ == indent_spec(depth as nat),
{
    let mut r = String::new();
    let mut i: usize = 0;
    while i < depth
        invariant
            i <= depth,
            r@ == Seq::new(2 * i as nat, |k: int| ' '),
        decreases depth - i,
    {
        push_char(&mut r, ' ');
        push_char(&mut r, ' ');
        i = i + 1;
        assert(r@ =~= Seq::new(2 * i as nat, |k: int| ' '));
    }
    r
}

/// The summary line of one item.
#[verifier::spinoff_prover]
fn summary_line_text(item: &MenuItem, depth: usize) -> (r: String)
    ensures
        r@ == summary_line(*item, depth as nat),
        item_text_lf_free(*item) ==> lf_count(r@) == 1,
{
    let mut r = indent(depth);
    r.append("[");
    r.append(i64_to_string(item.id as i64).as_str());
    r.append("] ");
    match &item.label {
        Some(l) => r.append(l.as_str()),
        None => r.append("(no label)"),
    }
    r.append(" (type=");
    r.append(item.item_type.as_str());
    r.append(", enabled=");
    if item.enabled {
        r.append("true");
    } else {
        r.append("false");
    }
    r.append(", toggle=");
    match &item.toggle_type {
        Some(t) => {
            r.append("Some(");
            let q = debug_quoted(t.as_str());
            proof {
                assert(no_lf(debug_str(t@)));
            }
            r.append(q.as_str());
            r.append(")");
        },
        None => r.append("None"),
    }
    r.append(":");
    r.append(i64_to_string(item.toggle_state as i64).as_str());
    r.append(")\n");
    proof {
        if item_text_lf_free(*item) {
            assert(item.toggle_type matches Some(t) ==> no_lf(debug_str(t@)));
            lemma_summary_line_lf(*item, depth as nat);
            assert(r@ == summary_line(*item, depth as nat));
        }
    }
    r
}

/// A readable summary of a menu tree: one line per item with its id,
/// label, type, whether it is enabled and its toggle, children indented
/// by two more spaces per level. When no label or type in the tree holds
/// a line feed, the summary has exactly one line feed per item.
pub fn menu_summary(item: &MenuItem, depth: usize) -> (r: String)
    requires
        depth + tree_height(*item) <= usize::MAX,
    ensures
        r@ == summary_spec(*item, depth as nat),
        tree_lf_free(*item) ==> lf_count(r@) == node_count(*item),
    decreases item,
{
    let mut result = summary_line_text(item, depth);
    let n = item.children.len();
    let mut i: usize = 0;
    while i < n
        invariant
            n == item.children@.len(),
            i <= n,
            depth + tree_height(*item) <= usize::MAX,
            result@ == summary_line(*item, depth as nat) + children_summary(
                item.children@.take(i as int),
                depth as nat + 1,
            ),
            tree_lf_free(*item) ==> lf_count(result@) == 1 + children_node_count(
                item.children@.take(i as int),
            ),
        decreases n - i,
    {
        proof {
            lemma_child_height(item.children@, i as int);
            assert(item.children@.take(i + 1).drop_last() =~= item.children@.take(i as int));
            assert(item.children@.take(i + 1).last() == item.children@[i as int]);
        }
        let child_text = menu_summary(&item.children[i], depth + 1);
        proof {
            if tree_lf_free(*item) {
                lemma_child_lf_free(item.children@, i as int);
                lemma_lf_count_add(result@, child_text@);
            }
        }
        result.append(child_text.as_str());
        i = i + 1;
    }
    assert(item.children@.take(n as int) =~= item.children@);
    result
}

/// A child's height is below the largest.
proof fn lemma_child_height(items: Seq<MenuItem>, i: int)
    requires
        0 <= i < items.len(),
    ensures
        tree_height(items[i]) <= children_height(items),
    decreases items.len(),
{
    if i < items.len() - 1 {
        lemma_child_height(items.drop_last(), i);
    }
}

// ---------------------------------------------------------------------
// The menu client
// ---------------------------------------------------------------------

/// A `GetLayout` call: the parent item, how deep to go (-1 for all) and
/// the properties to fetch.
#[derive(Debug, Clone)]
pub struct LayoutRequest {
    pub parent_id: i32,
    pub recursion_depth: i32,
    pub property_names: Vec<String>,
}

/// An `Event` call: the item, the event's name, its data and time.
#[derive(Debug, Clone)]
pub struct MenuEvent {
    pub id: i32,
    pub event_id: String,
    pub data: i32,
    pub timestamp: u32,
}

/// The properties fetched for each menu item.
pub open spec fn menu_properties() -> Seq<Seq<char>> {
    seq![
        "type"@,
        "label"@,
        "enabled"@,
        "visible"@,
        "icon-name"@,
        "toggle-type"@,
        "toggle-state"@,
        "children-display"@,
    ]
}

/// The D-Bus menu of a tray item: where it lives, and the calls made on
/// it.
#[derive(Debug, Clone)]
pub struct MenuClient {
    pub bus_name: String,
    pub object_path: String,
}

impl MenuClient {
    /// A client for the menu at `object_path` on `bus_name`.
    pub fn new(bus_name: &str, object_path: &str) -> (c: Self)
        ensures
            c.bus_name@ == bus_name@,
            c.object_path@ == object_path@,
    {
        MenuClient { bus_name: String::from_str(bus_name), object_path: String::from_str(object_path) }
    }

    /// The call that fetches the whole menu: from the root (0), at every
    /// depth, with the properties the tray shows.
    pub fn layout_request(&self) -> (r: LayoutRequest)
        ensures
            r.parent_id == 0,
            r.recursion_depth == -1,
            views(r.property_names@) == menu_properties(),
    {
        let mut names: Vec<String> = Vec::new();
        names.push(String::from_str("type"));
        names.push(String::from_str("label"));
        names.push(String::from_str("enabled"));
        names.push(String::from_str("visible"));
        names.push(String::from_str("icon-name"));
        names.push(String::from_str("toggle-type"));
        names.push(String::from_str("toggle-state"));
        names.push(String::from_str("children-display"));
        assert(views(names@) =~= menu_properties());
        LayoutRequest { parent_id: 0, recursion_depth: -1, property_names: names }
    }

    /// The call that clicks item `id`: a `clicked` event with data 0 at
    /// time 0.
    pub fn click(&self, id: i32) -> (e: MenuEvent)
        ensures
            e.id == id,
            e.event_id@ == "clicked"@,
            e.data == 0,
            e.timestamp == 0,
    {
        MenuEvent { id, event_id: String::from_str("clicked"), data: 0, timestamp: 0 }
    }
}

/// A property entry at the end of a layout's properties decides that
/// property: with a boolean last "enabled" entry the node holds it and
/// the built item is enabled exactly as it says; the same for "visible";
/// a last "toggle-state" integer becomes the item's toggle state; a last
/// "label" text becomes the item's label without its underscores; a last
/// "type" text becomes the item's type.
pub proof fn law_last_property_decides(
    l: MenuLayout,
    m: MenuItem,
    id: i32,
    props: Seq<(String, DbusValue)>,
    key: String,
    value: DbusValue,
    children: Seq<DbusValue>,
)
    requires
        layout_matches(l, id, props.push((key, value)), children),
        built_from(m, l),
    ensures
        key@ == "enabled"@ ==> (value matches DbusValue::Bool(b) ==> l.enabled == Some(b)
            && m.enabled == b),
        key@ == "visible"@ ==> (value matches DbusValue::Bool(b) ==> l.visible == Some(b)
            && m.visible == b),
        key@ == "toggle-state"@ ==> (value matches DbusValue::I32(n) ==> m.toggle_state == n),
        key@ == "label"@ ==> (value matches DbusValue::Str(s) ==> (m.label matches Some(t) && t@
            == strip_mnemonics_spec(s@))),
        key@ == "type"@ ==> (value matches DbusValue::Str(s) ==> m.item_type@ == s@),
{
    let p = props.push((key, value));
    assert(p.last() == (key, value));
    assert(p.drop_last() =~= props);
}

/// A property the layout does not hold, or holds with the wrong kind of
/// value, keeps its default: an item is enabled and visible, of type
/// "standard" and toggle state 0, unless an entry says otherwise.
pub proof fn law_missing_property_defaults(
    l: MenuLayout,
    m: MenuItem,
    id: i32,
    props: Seq<(String, DbusValue)>,
    children: Seq<DbusValue>,
)
    requires
        layout_matches(l, id, props, children),
        built_from(m, l),
    ensures
        !(prop_of(props, "enabled"@) matches Some(DbusValue::Bool(_))) ==> l.enabled is None
            && m.enabled,
        !(prop_of(props, "visible"@) matches Some(DbusValue::Bool(_))) ==> m.visible,
        !(prop_of(props, "type"@) matches Some(DbusValue::Str(_))) ==> m.item_type@ == "standard"@,
        !(prop_of(props, "toggle-state"@) matches Some(DbusValue::I32(_))) ==> m.toggle_state == 0,
        (forall|i: int| 0 <= i < props.len() ==> (#[trigger] props[i]).0@ != "enabled"@) ==> l.enabled
            is None && m.enabled,
{
    if forall|i: int| 0 <= i < props.len() ==> (#[trigger] props[i]).0@ != "enabled"@ {
        lemma_prop_absent(props, "enabled"@);
    }
}

/// A key that no entry has is absent.
proof fn lemma_prop_absent(props: Seq<(String, DbusValue)>, key: Seq<char>)
    requires
        forall|i: int| 0 <= i < props.len() ==> (#[trigger] props[i]).0@ != key,
    ensures
        prop_of(props, key) is None,
    decreases props.len(),
{
    if props.len() > 0 {
        assert(props.last().0@ != key) by {
            assert(props[props.len() - 1].0@ != key);
        }
        assert forall|i: int| 0 <= i < props.drop_last().len() implies (#[trigger] props.drop_last()[i]).0@
            != key by {
            assert(props.drop_last()[i] == props[i]);
        }
        lemma_prop_absent(props.drop_last(), key);
    }
}

} // verus!
