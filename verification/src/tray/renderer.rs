//! Tray layout: the colors of the tray, where each tray item's icon is
//! drawn, which icon a click lands on, and the cache of loaded icons.
//!
//! Drawing with Cairo and copying to the X window is the caller's part.

use vstd::prelude::*;
use vstd::utf8::{encode_utf8, is_continuation_byte};
use crate::config::TrayConfig;
use crate::text::views;

verus! {

// ---------------------------------------------------------------------
// Colors
// ---------------------------------------------------------------------

/// Index of the first byte at or after `i` that is not `#`.
pub open spec fn skip_hashes(b: Seq<u8>, i: int) -> int
    decreases b.len() - i,
{
    if 0 <= i < b.len() && b[i] == 35 {
        skip_hashes(b, i + 1)
    } else {
        i
    }
}

/// The value of an ASCII hexadecimal digit.
pub open spec fn hex_digit_value(c: u8) -> Option<nat> {
    if 48 <= c <= 57 {
        Some((c - 48) as nat)
    } else if 97 <= c <= 102 {
        Some((c - 87) as nat)
    } else if 65 <= c <= 70 {
        Some((c - 55) as nat)
    } else {
        None
    }
}

/// The value of a run of hexadecimal digits (`Some(0)` for none).
pub open spec fn hex_digits_value(d: Seq<u8>) -> Option<nat>
    decreases d.len(),
{
    if d.len() == 0 {
        Some(0)
    } else {
        match (hex_digits_value(d.drop_last()), hex_digit_value(d.last())) {
            (Some(a), Some(x)) => Some(16 * a + x),
            _ => None,
        }
    }
}

/// What an unsigned `from_str_radix(_, 16)` reads from bytes when the
/// value fits: one or more hexadecimal digits, optionally after a `+`.
pub open spec fn from_hex_spec(d: Seq<u8>) -> Option<nat> {
    if d.len() == 0 {
        None
    } else if d[0] == 43 {
        if d.len() == 1 {
            None
        } else {
            hex_digits_value(d.drop_first())
        }
    } else {
        hex_digits_value(d)
    }
}

/// The color of a text such as `#1a1a1a` or `#cc1a1a1a`, as 0xAARRGGBB:
/// leading `#`s are dropped; six remaining bytes are three hexadecimal
/// channels of two bytes each, fully opaque; eight are the whole value.
pub open spec fn parse_color_spec(b: Seq<u8>) -> Option<u32> {
    let k = skip_hashes(b, 0);
    let t = b.subrange(k, b.len() as int);
    if t.len() == 6 {
        match (
            from_hex_spec(t.subrange(0, 2)),
            from_hex_spec(t.subrange(2, 4)),
            from_hex_spec(t.subrange(4, 6)),
        ) {
            (Some(r), Some(g), Some(bl)) => Some((0xFF00_0000 + r * 65536 + g * 256 + bl) as u32),
            _ => None,
        }
    } else if t.len() == 8 {
        match from_hex_spec(t) {
            Some(v) => Some(v as u32),
            None => None,
        }
    } else {
        None
    }
}

/// Whether a color text can be cut into its three channels: with six
/// bytes after the `#`s, the cuts after the second and fourth fall
/// between characters (cutting a character in two is a panic).
pub open spec fn color_cuts_ok(b: Seq<u8>) -> bool {
    let k = skip_hashes(b, 0);
    b.len() - k == 6 ==> !is_continuation_byte(b[k + 2]) && !is_continuation_byte(b[k + 4])
}

proof fn lemma_skip_hashes(b: Seq<u8>, i: int)
    requires
        0 <= i <= b.len(),
    ensures
        i <= skip_hashes(b, i) <= b.len(),
    decreases b.len() - i,
{
    if i < b.len() && b[i] == 35 {
        lemma_skip_hashes(b, i + 1);
    }
}

proof fn lemma_hex_digits_bound(d: Seq<u8>)
    ensures
        hex_digits_value(d) matches Some(v) ==> v < pow16(d.len()),
    decreases d.len(),
{
    if d.len() > 0 {
        lemma_hex_digits_bound(d.drop_last());
        if let (Some(a), Some(x)) = (hex_digits_value(d.drop_last()), hex_digit_value(d.last())) {
            let p = pow16((d.len() - 1) as nat);
            assert(16 * a + x < 16 * p) by (nonlinear_arith)
                requires
                    a < p,
                    x < 16,
            ;
        }
    }
}

/// The value of the hexadecimal digits `b[from..to]` (at most eight).
fn hex_digits(b: &[u8], from: usize, to: usize) -> (r: Option<u64>)
    requires
        from <= to <= b@.len(),
        to - from <= 8,
    ensures
        match hex_digits_value(b@.subrange(from as int, to as int)) {
            Some(v) => r == Some(v as u64) && v < 0x1_0000_0000,
            None => r is None,
        },
{
    let mut acc: u64 = 0;
    let mut i: usize = from;
    while i < to
        invariant
            from <= i <= to <= b@.len(),
            to - from <= 8,
            hex_digits_value(b@.subrange(from as int, i as int)) == Some(acc as nat),
            acc < pow16((i - from) as nat),
        decreases to - i,
    {
        let c = b[i];
        let d: u64 = if 48 <= c && c <= 57 {
            (c - 48) as u64
        } else if 97 <= c && c <= 102 {
            (c - 87) as u64
        } else if 65 <= c && c <= 70 {
            (c - 55) as u64
        } else {
            proof {
                assert(b@.subrange(from as int, i + 1).drop_last() =~= b@.subrange(from as int, i as int));
                // once a digit fails, every longer run fails too
                assert(hex_digits_value(b@.subrange(from as int, i + 1)) is None);
                assert forall|k: int| i < k <= to implies hex_digits_value(
                    #[trigger] b@.subrange(from as int, k),
                ) is None by {
                    lemma_hex_prefix_fails(b@, from as int, i + 1, k);
                }
            }
            return None;
        };
        proof {
            lemma_pow16_le8((i - from) as nat);
            assert(b@.subrange(from as int, i + 1).drop_last() =~= b@.subrange(from as int, i as int));
            assert(b@.subrange(from as int, i + 1).last() == c);
            let p = pow16((i - from) as nat);
            assert(16 * acc + d < 16 * p) by (nonlinear_arith)
                requires
                    acc < p,
                    d < 16,
            ;
        }
        acc = 16 * acc + d;
        i = i + 1;
    }
    proof {
        lemma_pow16_le8((to - from) as nat);
    }
    Some(acc)
}

/// Sixteen to the power `n`.
pub open spec fn pow16(n: nat) -> nat
    decreases n,
{
    if n == 0 {
        1
    } else {
        16 * pow16((n - 1) as nat)
    }
}

proof fn lemma_pow16_le8(n: nat)
    requires
        n <= 8,
    ensures
        pow16(n) <= 0x1_0000_0000,
        pow16(n + 1) == 16 * pow16(n),
    decreases 8 - n,
{
    if n < 8 {
        lemma_pow16_le8(n + 1);
    } else {
        reveal_with_fuel(pow16, 9);
    }
}

proof fn lemma_hex_prefix_fails(b: Seq<u8>, from: int, i: int, k: int)
    requires
        0 <= from <= i <= k <= b.len(),
        hex_digits_value(b.subrange(from, i)) is None,
    ensures
        hex_digits_value(b.subrange(from, k)) is None,
    decreases k - i,
{
    if k > i {
        lemma_hex_prefix_fails(b, from, i, k - 1);
        assert(b.subrange(from, k).drop_last() =~= b.subrange(from, k - 1));
    }
}

/// What `from_str_radix(_, 16)` reads from `b[from..to]` (at most eight
/// bytes).
fn from_hex(b: &[u8], from: usize, to: usize) -> (r: Option<u64>)
    requires
        from <= to <= b@.len(),
        to - from <= 8,
    ensures
        match from_hex_spec(b@.subrange(from as int, to as int)) {
            Some(v) => r == Some(v as u64) && v < 0x1_0000_0000,
            None => r is None,
        },
{
    if from == to {
        return None;
    }
    if b[from] == 43 {
        if to - from == 1 {
            return None;
        }
        assert(b@.subrange(from as int, to as int).drop_first() =~= b@.subrange(from + 1, to as int));
        hex_digits(b, from + 1, to)
    } else {
        hex_digits(b, from, to)
    }
}

/// Parses a color such as `#1a1a1a` (opaque) or `#cc1a1a1a` to
/// 0xAARRGGBB; `None` when it is neither.
pub fn parse_color(s: &str) -> (r: Option<u32>)
    requires
        color_cuts_ok(encode_utf8(s@)),
    ensures
        r == parse_color_spec(encode_utf8(s@)),
{
    let b = s.as_bytes();
    let n = b.len();
    let mut k: usize = 0;
    while k < n && b[k] == 35
        invariant
            n == b@.len(),
            k <= n,
            skip_hashes(b@, k as int) == skip_hashes(b@, 0),
        decreases n - k,
    {
        k = k + 1;
    }
    let ghost t = b@.subrange(k as int, n as int);
    if n - k == 6 {
        assert(t.subrange(0, 2) =~= b@.subrange(k as int, k + 2));
        assert(t.subrange(2, 4) =~= b@.subrange(k + 2, k + 4));
        assert(t.subrange(4, 6) =~= b@.subrange(k + 4, k + 6));
        let r = from_hex(b, k, k + 2);
        let g = from_hex(b, k + 2, k + 4);
        let bl = from_hex(b, k + 4, k + 6);
        match (r, g, bl) {
            (Some(r), Some(g), Some(bl)) => {
                proof {
                    lemma_two_hex_below_256(b@.subrange(k as int, k + 2));
                    lemma_two_hex_below_256(b@.subrange(k + 2, k + 4));
                    lemma_two_hex_below_256(b@.subrange(k + 4, k + 6));
                }
                Some((0xFF00_0000u64 + r * 65536 + g * 256 + bl) as u32)
            },
            _ => None,
        }
    } else if n - k == 8 {
        assert(t =~= b@.subrange(k as int, (k + 8) as int));
        match from_hex(b, k, k + 8) {
            Some(v) => Some(v as u32),
            None => None,
        }
    } else {
        None
    }
}

proof fn lemma_two_hex_below_256(d: Seq<u8>)
    requires
        d.len() == 2,
    ensures
        from_hex_spec(d) matches Some(v) ==> v < 256,
{
    lemma_hex_digits_bound(d);
    lemma_hex_digits_bound(d.drop_first());
    reveal_with_fuel(pow16, 3);
}

/// The background used when the configured color does not parse.
pub const DEFAULT_BACKGROUND: u32 = 0xFF1a1a1a;

// ---------------------------------------------------------------------
// Icon positions and hit testing
// ---------------------------------------------------------------------

/// Where a tray item's icon was drawn (for hit testing).
#[derive(Debug, Clone)]
pub struct SniIconPosition {
    pub id: String,
    pub x: i32,
    pub y: i32,
    pub width: i32,
    pub height: i32,
}

/// The icon a point lands on, and the point relative to the icon.
#[derive(Debug, Clone)]
pub struct SniHitResult {
    pub id: String,
    pub local_x: i32,
    pub local_y: i32,
}

/// Whether an icon's rectangle holds a point (left and top edges
/// included, right and bottom excluded).
pub open spec fn holds_point(p: SniIconPosition, x: int, y: int) -> bool {
    p.x <= x < p.x + p.width && p.y <= y < p.y + p.height
}

/// The first icon from index `i` on that holds a point.
pub open spec fn first_hit_from(ps: Seq<SniIconPosition>, x: int, y: int, i: int) -> Option<int>
    decreases ps.len() - i,
{
    if i < 0 || i >= ps.len() {
        None
    } else if holds_point(ps[i], x, y) {
        Some(i)
    } else {
        first_hit_from(ps, x, y, i + 1)
    }
}

/// Whether the far edges of every icon can be computed in `i32`.
pub open spec fn positions_fit(ps: Seq<SniIconPosition>) -> bool {
    forall|i: int|
        0 <= i < ps.len() ==> i32::MIN <= (#[trigger] ps[i]).x + ps[i].width <= i32::MAX
            && i32::MIN <= ps[i].y + ps[i].height <= i32::MAX
}


/// The icon, among `ps`, that the point `(x, y)` lands on: the first
/// whose rectangle holds it.
pub fn hit_test_positions(ps: &Vec<SniIconPosition>, x: i32, y: i32) -> (r: Option<SniHitResult>)
    requires
        positions_fit(ps@),
    ensures
        match first_hit_from(ps@, x as int, y as int, 0) {
            Some(i) => r matches Some(h) && h.id@ == ps@[i].id@ && h.local_x == x - ps@[i].x
                && h.local_y == y - ps@[i].y,
            None => r is None,
        },
{
    let mut i: usize = 0;
    while i < ps.len()
        invariant
            i <= ps@.len(),
            positions_fit(ps@),
            first_hit_from(ps@, x as int, y as int, i as int) == first_hit_from(
                ps@,
                x as int,
                y as int,
                0,
            ),
        decreases ps@.len() - i,
    {
        let p = &ps[i];
        assert(i32::MIN <= p.x + p.width <= i32::MAX && i32::MIN <= p.y + p.height <= i32::MAX);
        if x >= p.x && x < p.x + p.width && y >= p.y && y < p.y + p.height {
            return Some(SniHitResult { id: p.id.clone(), local_x: x - p.x, local_y: y - p.y });
        }
        i = i + 1;
    }
    None
}

// ---------------------------------------------------------------------
// Icon cache
// ---------------------------------------------------------------------

/// A loaded icon, ready to draw.
#[derive(Debug, Clone)]
pub struct CachedIcon {
    pub width: i32,
    pub height: i32,
    pub data: Vec<u8>,
}

/// What a cached icon holds.
pub open spec fn icon_view(c: CachedIcon) -> (i32, i32, Seq<u8>) {
    (c.width, c.height, c.data@)
}

/// Loaded icons by name or path; one entry per key.
#[derive(Debug)]
pub struct IconCache {
    entries: Vec<(String, CachedIcon)>,
}

/// Whether no key occurs twice.
pub open spec fn keys_unique(e: Seq<(String, CachedIcon)>) -> bool {
    forall|i: int, j: int| 0 <= i < j < e.len() ==> (#[trigger] e[i]).0@ != (#[trigger] e[j]).0@
}

/// The index of the entry with key `k`, if any.
pub open spec fn key_index(e: Seq<(String, CachedIcon)>, k: Seq<char>) -> Option<int> {
    if exists|i: int| 0 <= i < e.len() && (#[trigger] e[i]).0@ == k {
        Some(choose|i: int| 0 <= i < e.len() && (#[trigger] e[i]).0@ == k)
    } else {
        None
    }
}

/// The icons of a list of entries, by key.
pub open spec fn entries_map(e: Seq<(String, CachedIcon)>) -> Map<Seq<char>, (i32, i32, Seq<u8>)> {
    Map::new(
        |k: Seq<char>| key_index(e, k) is Some,
        |k: Seq<char>| icon_view(e[key_index(e, k)->0].1),
    )
}

proof fn lemma_key_index(e: Seq<(String, CachedIcon)>, k: Seq<char>, i: int)
    requires
        keys_unique(e),
        0 <= i < e.len(),
        e[i].0@ == k,
    ensures
        key_index(e, k) == Some(i),
{
}

impl View for IconCache {
    type V = Map<Seq<char>, (i32, i32, Seq<u8>)>;

    closed spec fn view(&self) -> Map<Seq<char>, (i32, i32, Seq<u8>)> {
        entries_map(self.entries@)
    }
}

impl IconCache {
    #[verifier::type_invariant]
    spec fn unique_keys(&self) -> bool {
        keys_unique(self.entries@)
    }

    /// An empty cache.
    pub fn new() -> (c: Self)
        ensures
            c@ == Map::<Seq<char>, (i32, i32, Seq<u8>)>::empty(),
    {
        let c = IconCache { entries: Vec::new() };
        assert(c@ =~= Map::<Seq<char>, (i32, i32, Seq<u8>)>::empty());
        c
    }

    fn find(&self, key: &str) -> (r: Option<usize>)
        ensures
            match r {
                Some(i) => i < self.entries@.len() && self.entries@[i as int].0@ == key@,
                None => key_index(self.entries@, key@) is None,
            },
    {
        let mut i: usize = 0;
        while i < self.entries.len()
            invariant
                i <= self.entries@.len(),
                forall|j: int| 0 <= j < i ==> (#[trigger] self.entries@[j]).0@ != key@,
            decreases self.entries@.len() - i,
        {
            if crate::text::str_eq(self.entries[i].0.as_str(), key) {
                return Some(i);
            }
            i = i + 1;
        }
        None
    }

    /// The icon cached under `key`.
    pub fn get(&self, key: &str) -> (r: Option<&CachedIcon>)
        ensures
            match r {
                Some(c) => self@.contains_key(key@) && self@[key@] == icon_view(*c),
                None => !self@.contains_key(key@),
            },
    {
        proof {
            use_type_invariant(self);
        }
        match self.find(key) {
            Some(i) => {
                proof {
                    lemma_key_index(self.entries@, key@, i as int);
                }
                Some(&self.entries[i].1)
            },
            None => None,
        }
    }

    /// Caches `icon` under `key`, replacing what was there.
    pub fn insert(&mut self, key: String, icon: CachedIcon)
        ensures
            final(self)@ == old(self)@.insert(key@, icon_view(icon)),
    {
        proof {
            use_type_invariant(&*self);
        }
        let ghost k = key@;
        let ghost v = icon_view(icon);
        let ghost old_entries = self.entries@;
        match self.find(key.as_str()) {
            Some(i) => {
                let mut entries: Vec<(String, CachedIcon)> = Vec::new();
                std::mem::swap(&mut entries, &mut self.entries);
                entries.set(i, (key, icon));
                proof {
                    let e = entries@;
                    assert(e =~= old_entries.update(i as int, e[i as int]));
                    assert(keys_unique(e));
                    assert forall|q: Seq<char>|
                        entries_map(e).contains_key(q) <==> entries_map(old_entries).insert(
                            k,
                            v,
                        ).contains_key(q) by {
                        if q == k {
                            lemma_key_index(e, q, i as int);
                        } else if key_index(old_entries, q) is Some {
                            let j = key_index(old_entries, q)->0;
                            lemma_key_index(e, q, j);
                        } else if key_index(e, q) is Some {
                            let j = key_index(e, q)->0;
                            lemma_key_index(old_entries, q, j);
                        }
                    }
                    assert forall|q: Seq<char>| #[trigger] entries_map(e).contains_key(q)
                        implies entries_map(e)[q] == entries_map(old_entries).insert(k, v)[q] by {
                        if q == k {
                            lemma_key_index(e, q, i as int);
                        } else {
                            let j = key_index(e, q)->0;
                            lemma_key_index(old_entries, q, j);
                        }
                    }
                    assert(entries_map(e) =~= entries_map(old_entries).insert(k, v));
                }
                self.entries = entries;
            },
            None => {
                let mut entries: Vec<(String, CachedIcon)> = Vec::new();
                std::mem::swap(&mut entries, &mut self.entries);
                entries.push((key, icon));
                proof {
                    let e = entries@;
                    let n = old_entries.len() as int;
                    assert(e =~= old_entries.push(e[n]));
                    assert forall|q: Seq<char>|
                        entries_map(e).contains_key(q) <==> entries_map(old_entries).insert(
                            k,
                            v,
                        ).contains_key(q) by {
                        if q == k {
                            lemma_key_index(e, q, n);
                        } else if key_index(old_entries, q) is Some {
                            let j = key_index(old_entries, q)->0;
                            lemma_key_index(e, q, j);
                        } else if key_index(e, q) is Some {
                            let j = key_index(e, q)->0;
                            lemma_key_index(old_entries, q, j);
                        }
                    }
                    assert forall|q: Seq<char>| #[trigger] entries_map(e).contains_key(q)
                        implies entries_map(e)[q] == entries_map(old_entries).insert(k, v)[q] by {
                        if q == k {
                            lemma_key_index(e, q, n);
                        } else {
                            let j = key_index(e, q)->0;
                            lemma_key_index(old_entries, q, j);
                        }
                    }
                    assert(entries_map(e) =~= entries_map(old_entries).insert(k, v));
                }
                self.entries = entries;
            },
        }
    }

    /// Empties the cache.
    pub fn clear(&mut self)
        ensures
            final(self)@ == Map::<Seq<char>, (i32, i32, Seq<u8>)>::empty(),
    {
        self.entries = Vec::new();
        assert(self@ =~= Map::<Seq<char>, (i32, i32, Seq<u8>)>::empty());
    }
}


/// A color of six hexadecimal digits is fully opaque, and its channels
/// are where they were written: red in the third byte, green in the
/// second, blue in the first.
pub proof fn law_six_digit_colors_opaque(b: Seq<u8>)
    requires
        b.len() - skip_hashes(b, 0) == 6,
        parse_color_spec(b) is Some,
    ensures
        ({
            let k = skip_hashes(b, 0);
            let t = b.subrange(k, b.len() as int);
            let c = parse_color_spec(b)->0 as int;
            &&& c / 0x100_0000 == 0xFF
            &&& (c / 0x10000) % 256 == from_hex_spec(t.subrange(0, 2))->0
            &&& (c / 0x100) % 256 == from_hex_spec(t.subrange(2, 4))->0
            &&& c % 256 == from_hex_spec(t.subrange(4, 6))->0
        }),
{
    lemma_skip_hashes(b, 0);
    let k = skip_hashes(b, 0);
    let t = b.subrange(k, b.len() as int);
    lemma_two_hex_below_256(t.subrange(0, 2));
    lemma_two_hex_below_256(t.subrange(2, 4));
    lemma_two_hex_below_256(t.subrange(4, 6));
    let r = from_hex_spec(t.subrange(0, 2))->0 as int;
    let g = from_hex_spec(t.subrange(2, 4))->0 as int;
    let bl = from_hex_spec(t.subrange(4, 6))->0 as int;
    let v = 0xFF00_0000 + r * 65536 + g * 256 + bl;
    assert(0 <= v <= 0xFFFF_FFFF);
    assert(parse_color_spec(b)->0 as int == v);
    assert(v / 0x100_0000 == 0xFF);
    assert((v / 0x10000) % 256 == r);
    assert((v / 0x100) % 256 == g);
    assert(v % 256 == bl);
}

/// Laid-out icons do not overlap: with non-negative spacing, each icon
/// ends before the next one begins.
pub proof fn law_layout_icons_apart(
    ps: Seq<SniIconPosition>,
    ids: Seq<Seq<char>>,
    offset: int,
    icon: int,
    spacing: int,
    k: int,
    j: int,
)
    requires
        laid_out(ps, ids, offset, icon, icon + spacing),
        0 <= icon,
        0 <= spacing,
        0 <= k < j < ps.len(),
    ensures
        ps[k].x + ps[k].width <= ps[j].x,
{
    let step = icon + spacing;
    assert(j * step >= (k + 1) * step) by (nonlinear_arith)
        requires
            k + 1 <= j,
            step >= 0,
    ;
    assert((k + 1) * step == k * step + step) by (nonlinear_arith);
    assert(ps[k].x == offset + k * step);
    assert(ps[j].x == offset + j * step);
}

/// A click inside a laid-out icon is a hit on that icon, at the click's
/// place within it.
pub proof fn law_layout_hit(
    ps: Seq<SniIconPosition>,
    ids: Seq<Seq<char>>,
    offset: int,
    icon: int,
    spacing: int,
    k: int,
    dx: int,
    dy: int,
)
    requires
        laid_out(ps, ids, offset, icon, icon + spacing),
        0 <= icon,
        0 <= spacing,
        0 <= k < ps.len(),
        0 <= dx < icon,
        0 <= dy < icon,
    ensures
        first_hit_from(ps, ps[k].x + dx, dy, 0) == Some(k),
{
    lemma_hit_from(ps, ids, offset, icon, spacing, k, dx, dy, 0);
}

proof fn lemma_hit_from(
    ps: Seq<SniIconPosition>,
    ids: Seq<Seq<char>>,
    offset: int,
    icon: int,
    spacing: int,
    k: int,
    dx: int,
    dy: int,
    i: int,
)
    requires
        laid_out(ps, ids, offset, icon, icon + spacing),
        0 <= icon,
        0 <= spacing,
        0 <= i <= k < ps.len(),
        0 <= dx < icon,
        0 <= dy < icon,
    ensures
        first_hit_from(ps, ps[k].x + dx, dy, i) == Some(k),
    decreases k - i,
{
    if i < k {
        law_layout_icons_apart(ps, ids, offset, icon, spacing, i, k);
        lemma_hit_from(ps, ids, offset, icon, spacing, k, dx, dy, i + 1);
    }
}

// ---------------------------------------------------------------------
// The renderer's state
// ---------------------------------------------------------------------

/// The layout state of the tray: its surface size, icon size, spacing,
/// background, icon cache and where each tray item's icon was drawn.
#[derive(Debug)]
pub struct TrayRenderer {
    width: u32,
    height: u32,
    icon_size: u32,
    spacing: u32,
    background: u32,
    icon_cache: IconCache,
    sni_positions: Vec<SniIconPosition>,
}

/// Where the icons of `ids` go, side by side from `offset`, each `step`
/// pixels after the one before: every icon a square of `icon` pixels at
/// the top.
pub open spec fn laid_out(
    ps: Seq<SniIconPosition>,
    ids: Seq<Seq<char>>,
    offset: int,
    icon: int,
    step: int,
) -> bool {
    &&& ps.len() == ids.len()
    &&& forall|k: int|
        0 <= k < ps.len() ==> (#[trigger] ps[k]).id@ == ids[k] && ps[k].x == offset + k * step
            && ps[k].y == 0 && ps[k].width == icon && ps[k].height == icon
}

/// The width of the surface that holds icons of `n` tray items after
/// `offset` pixels, as the unsigned arithmetic computes it.
pub open spec fn surface_width(offset: i32, n: int, icon: int, spacing: int) -> int {
    (offset as u32) as int + n * icon + (n - 1) * spacing
}

impl TrayRenderer {
    #[verifier::type_invariant]
    spec fn edges_fit(&self) -> bool {
        positions_fit(self.sni_positions@)
    }

    /// Surface width.
    pub closed spec fn width_spec(&self) -> u32 {
        self.width
    }

    /// Surface height.
    pub closed spec fn height_spec(&self) -> u32 {
        self.height
    }

    /// Icon size.
    pub closed spec fn icon_size_spec(&self) -> u32 {
        self.icon_size
    }

    /// Space between icons.
    pub closed spec fn spacing_spec(&self) -> u32 {
        self.spacing
    }

    /// Background color, 0xAARRGGBB.
    pub closed spec fn background_spec(&self) -> u32 {
        self.background
    }

    /// The icon cache.
    pub closed spec fn cache_spec(&self) -> Map<Seq<char>, (i32, i32, Seq<u8>)> {
        self.icon_cache@
    }

    /// Where the tray items' icons were drawn.
    pub closed spec fn positions_spec(&self) -> Seq<SniIconPosition> {
        self.sni_positions@
    }

    /// A renderer for the tray settings: 200 pixels wide, one icon high,
    /// on the configured background (or the default one when that does not
    /// parse), with nothing cached or drawn yet.
    pub fn new(config: &TrayConfig) -> (r: Self)
        requires
            color_cuts_ok(encode_utf8(config.background@)),
        ensures
            r.width_spec() == 200,
            r.height_spec() == config.icon_size,
            r.icon_size_spec() == config.icon_size,
            r.spacing_spec() == config.spacing,
            r.background_spec() == match parse_color_spec(encode_utf8(config.background@)) {
                Some(c) => c,
                None => DEFAULT_BACKGROUND,
            },
            r.cache_spec() == Map::<Seq<char>, (i32, i32, Seq<u8>)>::empty(),
            r.positions_spec().len() == 0,
    {
        let bg = match parse_color(config.background.as_str()) {
            Some(c) => c,
            None => DEFAULT_BACKGROUND,
        };
        TrayRenderer {
            width: 200,
            height: config.icon_size,
            icon_size: config.icon_size,
            spacing: config.spacing,
            background: bg,
            icon_cache: IconCache::new(),
            sni_positions: Vec::new(),
        }
    }

    /// Empties the icon cache (on a theme change, say).
    pub fn clear_cache(&mut self)
        ensures
            final(self).cache_spec() == Map::<Seq<char>, (i32, i32, Seq<u8>)>::empty(),
            final(self).positions_spec() == old(self).positions_spec(),
            final(self).width_spec() == old(self).width_spec(),
            final(self).height_spec() == old(self).height_spec(),
            final(self).icon_size_spec() == old(self).icon_size_spec(),
            final(self).spacing_spec() == old(self).spacing_spec(),
            final(self).background_spec() == old(self).background_spec(),
    {
        proof {
            use_type_invariant(&*self);
        }
        let mut cache = IconCache::new();
        std::mem::swap(&mut cache, &mut self.icon_cache);
    }

    /// The icon cached under `key`.
    pub fn cached_icon(&self, key: &str) -> (r: Option<&CachedIcon>)
        ensures
            match r {
                Some(c) => self.cache_spec().contains_key(key@) && self.cache_spec()[key@]
                    == icon_view(*c),
                None => !self.cache_spec().contains_key(key@),
            },
    {
        self.icon_cache.get(key)
    }

    /// Caches a loaded icon under `key`.
    pub fn cache_icon(&mut self, key: String, icon: CachedIcon)
        ensures
            final(self).cache_spec() == old(self).cache_spec().insert(key@, icon_view(icon)),
            final(self).positions_spec() == old(self).positions_spec(),
            final(self).width_spec() == old(self).width_spec(),
            final(self).height_spec() == old(self).height_spec(),
            final(self).icon_size_spec() == old(self).icon_size_spec(),
            final(self).spacing_spec() == old(self).spacing_spec(),
            final(self).background_spec() == old(self).background_spec(),
    {
        proof {
            use_type_invariant(&*self);
        }
        let mut cache = IconCache::new();
        std::mem::swap(&mut cache, &mut self.icon_cache);
        cache.insert(key, icon);
        self.icon_cache = cache;
    }

    /// The tray item icon that a point lands on, with the point relative
    /// to the icon.
    pub fn hit_test(&self, x: i32, y: i32) -> (r: Option<SniHitResult>)
        ensures
            match first_hit_from(self.positions_spec(), x as int, y as int, 0) {
                Some(i) => r matches Some(h) && h.id@ == self.positions_spec()[i].id@ && h.local_x
                    == x - self.positions_spec()[i].x && h.local_y == y - self.positions_spec()[i].y,
                None => r is None,
            },
    {
        proof {
            use_type_invariant(self);
        }
        hit_test_positions(&self.sni_positions, x, y)
    }

    /// The icon size.
    pub fn icon_size(&self) -> (s: u32)
        ensures
            s == self.icon_size_spec(),
    {
        self.icon_size
    }

    /// Where the tray items' icons were drawn.
    pub fn positions(&self) -> (p: &Vec<SniIconPosition>)
        ensures
            p@ == self.positions_spec(),
    {
        &self.sni_positions
    }

    /// Whether a new surface must be made for a `width` x `height` tray:
    /// when there is none yet or its size differs. The new size is kept.
    pub fn ensure_surface(&mut self, has_surface: bool, width: u32, height: u32) -> (make: bool)
        ensures
            make == (!has_surface || old(self).width_spec() != width || old(self).height_spec()
                != height),
            final(self).width_spec() == if make { width } else { old(self).width_spec() },
            final(self).height_spec() == if make { height } else { old(self).height_spec() },
            final(self).icon_size_spec() == old(self).icon_size_spec(),
            final(self).spacing_spec() == old(self).spacing_spec(),
            final(self).background_spec() == old(self).background_spec(),
            final(self).cache_spec() == old(self).cache_spec(),
            final(self).positions_spec() == old(self).positions_spec(),
    {
        proof {
            use_type_invariant(&*self);
        }
        if !has_surface || self.width != width || self.height != height {
            self.width = width;
            self.height = height;
            true
        } else {
            false
        }
    }

    /// The background's red, green, blue and alpha bytes.
    pub fn background_channels(&self) -> (c: (u8, u8, u8, u8))
        ensures
            c.0 as int == (self.background_spec() as int / 0x10000) % 256,
            c.1 as int == (self.background_spec() as int / 0x100) % 256,
            c.2 as int == self.background_spec() as int % 256,
            c.3 as int == self.background_spec() as int / 0x100_0000,
    {
        let bg = self.background;
        let r = ((bg >> 16) & 0xFF) as u8;
        let g = ((bg >> 8) & 0xFF) as u8;
        let b = (bg & 0xFF) as u8;
        let a = ((bg >> 24) & 0xFF) as u8;
        assert(((bg >> 16) & 0xFF) == (bg / 0x10000) % 256) by (bit_vector);
        assert(((bg >> 8) & 0xFF) == (bg / 0x100) % 256) by (bit_vector);
        assert((bg & 0xFF) == bg % 256) by (bit_vector);
        assert(((bg >> 24) & 0xFF) == bg / 0x100_0000) by (bit_vector);
        (r, g, b, a)
    }

    /// How far an icon of `width` pixels is moved right to center it in
    /// its square (negative for a wider icon), rounding toward zero.
    pub fn icon_offset(&self, width: i32) -> (o: i32)
        requires
            self.icon_size_spec() <= i32::MAX,
            i32::MIN <= self.icon_size_spec() - width <= i32::MAX,
        ensures
            o as int == crate::text::div_trunc(self.icon_size_spec() - width, 2),
    {
        let d: i32 = self.icon_size as i32 - width;
        if d >= 0 {
            d / 2
        } else {
            -((-d) / 2)
        }
    }

    /// Lays out the icons of the tray items `ids` after `xembed_offset`
    /// pixels (where the XEMBED icons end): each a square of the icon
    /// size, `spacing` apart. Returns where the last icon ends plus the
    /// spacing (the offset itself when there are none) and, when there are
    /// icons, the width of the surface that holds them.
    pub fn layout_sni_icons(&mut self, ids: &Vec<String>, xembed_offset: i32) -> (r: (i32, Option<u32>))
        requires
            ids@.len() <= u32::MAX,
            old(self).icon_size_spec() + old(self).spacing_spec() <= i32::MAX,
            xembed_offset + ids@.len() * (old(self).icon_size_spec() + old(self).spacing_spec())
                <= i32::MAX,
            ids@.len() > 0 ==> surface_width(
                xembed_offset,
                ids@.len() as int,
                old(self).icon_size_spec() as int,
                old(self).spacing_spec() as int,
            ) <= u32::MAX,
        ensures
            laid_out(
                final(self).positions_spec(),
                views(ids@),
                xembed_offset as int,
                old(self).icon_size_spec() as int,
                old(self).icon_size_spec() + old(self).spacing_spec(),
            ),
            r.0 == xembed_offset + ids@.len() * (old(self).icon_size_spec() + old(self).spacing_spec()),
            r.1 == if ids@.len() == 0 {
                None
            } else {
                Some(
                    surface_width(
                        xembed_offset,
                        ids@.len() as int,
                        old(self).icon_size_spec() as int,
                        old(self).spacing_spec() as int,
                    ) as u32,
                )
            },
            final(self).width_spec() == old(self).width_spec(),
            final(self).height_spec() == old(self).height_spec(),
            final(self).icon_size_spec() == old(self).icon_size_spec(),
            final(self).spacing_spec() == old(self).spacing_spec(),
            final(self).background_spec() == old(self).background_spec(),
            final(self).cache_spec() == old(self).cache_spec(),
    {
        let n = ids.len();
        let icon = self.icon_size;
        let spacing = self.spacing;
        let step: i32 = icon as i32 + spacing as i32;
        let ghost stepi: int = icon + spacing;
        let mut positions: Vec<SniIconPosition> = Vec::new();
        let mut x: i32 = xembed_offset;
        let mut k: usize = 0;
        while k < n
            invariant
                n == ids@.len(),
                k <= n,
                step as int == stepi,
                stepi == icon + spacing,
                icon + spacing <= i32::MAX,
                xembed_offset + n * stepi <= i32::MAX,
                x as int == xembed_offset + k * stepi,
                laid_out(positions@, views(ids@).take(k as int), xembed_offset as int, icon as int, stepi),
                positions_fit(positions@),
            decreases n - k,
        {
            assert(k * stepi + stepi <= n * stepi) by (nonlinear_arith)
                requires
                    k < n,
                    stepi >= 0,
            ;
            assert(0 <= k * stepi) by (nonlinear_arith)
                requires
                    stepi >= 0,
            ;
            positions.push(
                SniIconPosition {
                    id: ids[k].clone(),
                    x: x,
                    y: 0,
                    width: icon as i32,
                    height: icon as i32,
                },
            );
            proof {
                assert(views(ids@).take(k + 1) =~= views(ids@).take(k as int).push(ids@[k as int]@));
                assert((k + 1) * stepi == k * stepi + stepi) by (nonlinear_arith);
            }
            x = x + step;
            k = k + 1;
        }
        assert(views(ids@).take(n as int) =~= views(ids@));
        let total = if n == 0 {
            None
        } else {
            let nn = n as u32;
            assert(nn * icon <= surface_width(xembed_offset, n as int, icon as int, spacing as int)) by (nonlinear_arith)
                requires
                    nn == n,
                    n >= 1,
                    surface_width(xembed_offset, n as int, icon as int, spacing as int) == (xembed_offset as u32) as int + n * icon + (n - 1) * spacing,
                    spacing >= 0,
            ;
            assert(0 <= (nn - 1) * spacing) by (nonlinear_arith)
                requires
                    nn >= 1,
            ;
            Some((xembed_offset as u32) + nn * icon + (nn - 1) * spacing)
        };
        let mut old_positions = positions;
        std::mem::swap(&mut old_positions, &mut self.sni_positions);
        (x, total)
    }
}

} // verus!
