//! Tray icons: where an icon comes from (theme name, pixmap, file), the
//! pixel conversions to Cairo's premultiplied BGRA, the icon file formats
//! that are understood, and the places where a theme icon is looked for.
//!
//! Decoding and scaling image files works in floating point and stays
//! with the caller; the conversions here are exact integer arithmetic.

use vstd::prelude::*;
use crate::host;
use crate::text::{concat_str, dec_nat, join_path, join_path_spec, lemma_views_push, u64_to_string, views};

verus! {

/// Represents icon data that can be rendered.
#[derive(Debug, Clone)]
pub enum IconData {
    /// Icon loaded from theme by name
    ThemeName(String),
    /// Raw pixmap data (width, height, data)
    Pixmap { width: i32, height: i32, data: Vec<u8> },
    /// Icon loaded from file path
    File(String),
    /// Fallback/placeholder
    Placeholder,
}

impl IconData {
    /// The icon of a tray item: its theme name when it has a non-empty
    /// one, else its pixmap when it has one, else a placeholder.
    pub fn from_sni(icon_name: Option<&str>, icon_pixmap: Option<(i32, i32, Vec<u8>)>) -> (r: Self)
        ensures
            match icon_name {
                Some(n) if n@.len() > 0 => r matches IconData::ThemeName(t) && t@ == n@,
                _ => match icon_pixmap {
                    Some((w, h, d)) => r matches IconData::Pixmap { width, height, data } && width
                        == w && height == h && data@ == d@,
                    None => r is Placeholder,
                },
            },
    {
        if let Some(name) = icon_name {
            if name.unicode_len() > 0 {
                return IconData::ThemeName(String::from_str(name));
            }
        }
        match icon_pixmap {
            Some((width, height, data)) => IconData::Pixmap { width, height, data },
            None => IconData::Placeholder,
        }
    }
}

// ---------------------------------------------------------------------
// Pixel conversions
// ---------------------------------------------------------------------

/// A color channel premultiplied by an alpha, rounded to nearest:
/// `round(c * a / 255)`. No product `c * a` lies halfway between two
/// multiples of 255, so no tie arises.
pub open spec fn premultiply(c: u8, a: u8) -> u8 {
    ((2 * ((c as int) * (a as int)) + 255) / 510) as u8
}

/// Premultiplies a channel by an alpha.
pub fn premultiply_channel(c: u8, a: u8) -> (r: u8)
    ensures
        r == premultiply(c, a),
        r as int == (2 * ((c as int) * (a as int)) + 255) / 510,
{
    assert(0 <= (c as int) * (a as int) <= 65025) by (nonlinear_arith)
        requires
            0 <= c <= 255,
            0 <= a <= 255,
    ;
    let p: u32 = (c as u32) * (a as u32);
    let q: u32 = (2 * p + 255) / 510;
    assert(q <= 255);
    q as u8
}

/// Byte `idx` of Cairo BGRA data made from ARGB pixels (bytes A, R, G, B
/// in that order): per pixel the premultiplied B, G, R, then A.
pub open spec fn argb_out_byte(data: Seq<u8>, idx: int) -> u8 {
    let base = (idx / 4) * 4;
    let a = data[base];
    let j = idx % 4;
    if j == 0 {
        premultiply(data[base + 3], a)
    } else if j == 1 {
        premultiply(data[base + 2], a)
    } else if j == 2 {
        premultiply(data[base + 1], a)
    } else {
        a
    }
}

/// Cairo BGRA data made from ARGB pixels; a trailing partial pixel is
/// dropped.
pub open spec fn argb_to_bgra_spec(data: Seq<u8>) -> Seq<u8> {
    Seq::new(4 * (data.len() / 4), |idx: int| argb_out_byte(data, idx))
}

/// Byte `idx` of Cairo BGRA data made from RGBA pixels (bytes R, G, B, A
/// in that order): per pixel the premultiplied B, G, R, then A.
pub open spec fn rgba_out_byte(data: Seq<u8>, idx: int) -> u8 {
    let base = (idx / 4) * 4;
    let a = data[base + 3];
    let j = idx % 4;
    if j == 0 {
        premultiply(data[base + 2], a)
    } else if j == 1 {
        premultiply(data[base + 1], a)
    } else if j == 2 {
        premultiply(data[base], a)
    } else {
        a
    }
}

/// Cairo BGRA data made from RGBA pixels; a trailing partial pixel is
/// dropped.
pub open spec fn rgba_to_bgra_spec(data: Seq<u8>) -> Seq<u8> {
    Seq::new(4 * (data.len() / 4), |idx: int| rgba_out_byte(data, idx))
}

proof fn lemma_pixel_index(i: int, j: int)
    requires
        0 <= i,
        0 <= j < 4,
    ensures
        (4 * i + j) / 4 == i,
        (4 * i + j) % 4 == j,
        ((4 * i + j) / 4) * 4 == 4 * i,
{
}


/// A premultiplied channel never exceeds its alpha (as Cairo requires);
/// a fully opaque pixel keeps its channels and a fully transparent one
/// loses them.
pub proof fn law_premultiply_bounds(c: u8, a: u8)
    ensures
        premultiply(c, a) <= a,
        a == 255 ==> premultiply(c, a) == c,
        a == 0 ==> premultiply(c, a) == 0,
{
    assert(0 <= (c as int) * (a as int) <= 255 * (a as int)) by (nonlinear_arith)
        requires
            0 <= c <= 255,
            0 <= a <= 255,
    ;
    assert((2 * ((c as int) * (a as int)) + 255) / 510 <= a as int);
    if a == 255 {
        assert((c as int) * 255 == 255 * (c as int));
        assert((2 * ((c as int) * 255) + 255) / 510 == c as int);
    }
}

/// Converting pixmap data keeps every pixel's alpha in place, and every
/// channel within its alpha.
pub proof fn law_argb_conversion_keeps_alpha(data: Seq<u8>, k: int)
    requires
        0 <= k < data.len() / 4,
    ensures
        argb_to_bgra_spec(data)[4 * k + 3] == data[4 * k],
        argb_to_bgra_spec(data)[4 * k] <= data[4 * k],
        argb_to_bgra_spec(data)[4 * k + 1] <= data[4 * k],
        argb_to_bgra_spec(data)[4 * k + 2] <= data[4 * k],
{
    lemma_pixel_index(k, 0);
    lemma_pixel_index(k, 1);
    lemma_pixel_index(k, 2);
    lemma_pixel_index(k, 3);
    law_premultiply_bounds(data[4 * k + 3], data[4 * k]);
    law_premultiply_bounds(data[4 * k + 2], data[4 * k]);
    law_premultiply_bounds(data[4 * k + 1], data[4 * k]);
}

/// Converts tray item pixmap data (ARGB, network byte order) to Cairo's
/// native BGRA with premultiplied alpha.
pub fn argb_to_cairo_bgra(data: &[u8]) -> (r: Vec<u8>)
    ensures
        r@ == argb_to_bgra_spec(data@),
{
    let n = data.len() / 4;
    let mut result: Vec<u8> = Vec::new();
    let mut i: usize = 0;
    while i < n
        invariant
            n == data@.len() / 4,
            4 * n <= data.len(),
            data.len() == data@.len(),
            i <= n,
            result@.len() == 4 * i,
            forall|k: int| 0 <= k < 4 * i ==> #[trigger] result@[k] == argb_out_byte(data@, k),
        decreases n - i,
    {
        let base = 4 * i;
        let a = data[base];
        let r = data[base + 1];
        let g = data[base + 2];
        let b = data[base + 3];
        result.push(premultiply_channel(b, a));
        result.push(premultiply_channel(g, a));
        result.push(premultiply_channel(r, a));
        result.push(a);
        proof {
            lemma_pixel_index(i as int, 0);
            lemma_pixel_index(i as int, 1);
            lemma_pixel_index(i as int, 2);
            lemma_pixel_index(i as int, 3);
        }
        i = i + 1;
    }
    assert(result@ =~= argb_to_bgra_spec(data@));
    result
}

/// The same conversion as `argb_to_cairo_bgra`, under its older name.
pub fn argb_to_bgra(data: &[u8]) -> (r: Vec<u8>)
    ensures
        r@ == argb_to_bgra_spec(data@),
{
    argb_to_cairo_bgra(data)
}

/// Converts decoded image data (RGBA, straight alpha) to Cairo's native
/// BGRA with premultiplied alpha.
pub fn rgba_to_cairo_bgra(data: &[u8]) -> (r: Vec<u8>)
    ensures
        r@ == rgba_to_bgra_spec(data@),
{
    let n = data.len() / 4;
    let mut result: Vec<u8> = Vec::new();
    let mut i: usize = 0;
    while i < n
        invariant
            n == data@.len() / 4,
            4 * n <= data.len(),
            data.len() == data@.len(),
            i <= n,
            result@.len() == 4 * i,
            forall|k: int| 0 <= k < 4 * i ==> #[trigger] result@[k] == rgba_out_byte(data@, k),
        decreases n - i,
    {
        let base = 4 * i;
        let r = data[base];
        let g = data[base + 1];
        let b = data[base + 2];
        let a = data[base + 3];
        result.push(premultiply_channel(b, a));
        result.push(premultiply_channel(g, a));
        result.push(premultiply_channel(r, a));
        result.push(a);
        proof {
            lemma_pixel_index(i as int, 0);
            lemma_pixel_index(i as int, 1);
            lemma_pixel_index(i as int, 2);
            lemma_pixel_index(i as int, 3);
        }
        i = i + 1;
    }
    assert(result@ =~= rgba_to_bgra_spec(data@));
    result
}

/// Data with the first and third byte of each whole pixel swapped.
pub open spec fn swap_red_blue_spec(data: Seq<u8>) -> Seq<u8> {
    Seq::new(
        data.len(),
        |idx: int|
            if idx < 4 * (data.len() / 4) && idx % 4 == 0 {
                data[idx + 2]
            } else if idx < 4 * (data.len() / 4) && idx % 4 == 2 {
                data[idx - 2]
            } else {
                data[idx]
            },
    )
}

/// Swaps the red and blue bytes of each whole pixel, turning premultiplied
/// RGBA into premultiplied BGRA; a trailing partial pixel is left alone.
pub fn swap_red_blue(data: &mut Vec<u8>)
    ensures
        final(data)@ == swap_red_blue_spec(old(data)@),
{
    let n = data.len() / 4;
    let ghost orig = data@;
    let mut i: usize = 0;
    while i < n
        invariant
            n == orig.len() / 4,
            4 * n <= orig.len(),
            orig.len() <= usize::MAX,
            i <= n,
            data@.len() == orig.len(),
            forall|k: int|
                0 <= k < 4 * i ==> #[trigger] data@[k] == swap_red_blue_spec(orig)[k],
            forall|k: int| 4 * i <= k < orig.len() ==> #[trigger] data@[k] == orig[k],
        decreases n - i,
    {
        let base = 4 * i;
        let first = data[base];
        let third = data[base + 2];
        data.set(base, third);
        data.set(base + 2, first);
        proof {
            lemma_pixel_index(i as int, 0);
            lemma_pixel_index(i as int, 1);
            lemma_pixel_index(i as int, 2);
            lemma_pixel_index(i as int, 3);
        }
        i = i + 1;
    }
    assert(data@ =~= swap_red_blue_spec(orig));
}

// ---------------------------------------------------------------------
// File names and formats
// ---------------------------------------------------------------------

/// Where `p[..end]` ends once trailing '/' are dropped.
pub open spec fn strip_end(p: Seq<char>, end: int) -> int
    decreases end,
{
    if end > 0 && p[end - 1] == '/' {
        strip_end(p, end - 1)
    } else {
        end
    }
}

/// Where the last component of `p[..e]` starts: just after the last '/'
/// before `e`, or 0.
pub open spec fn comp_start(p: Seq<char>, e: int) -> int
    decreases e,
{
    if e > 0 && p[e - 1] != '/' {
        comp_start(p, e - 1)
    } else {
        e
    }
}

pub proof fn lemma_strip_end(p: Seq<char>, end: int)
    requires
        0 <= end,
    ensures
        0 <= strip_end(p, end) <= end,
    decreases end,
{
    if end > 0 && p[end - 1] == '/' {
        lemma_strip_end(p, end - 1);
    }
}


/// The bounds of the file name of the path `p[..end]`, the way
/// `Path::file_name` finds it: trailing '/' and `.` components are
/// skipped; a last component `..`, or none at all, gives no file name.
pub open spec fn file_name_from(p: Seq<char>, end: int) -> Option<(int, int)>
    decreases end,
{
    if end < 0 {
        None
    } else {
        let e = strip_end(p, end);
        if e <= 0 {
            None
        } else {
            let k = comp_start(p, e);
            if e - k == 1 && p[k] == '.' {
                proof {
                    lemma_strip_end(p, end);
                }
                file_name_from(p, k)
            } else if e - k == 2 && p[k] == '.' && p[k + 1] == '.' {
                None
            } else {
                Some((k, e))
            }
        }
    }
}

/// Index of the last '.' in `p[a..b]`, or -1.
pub open spec fn last_dot_from(p: Seq<char>, a: int, b: int) -> int
    decreases b - a,
{
    if b <= a {
        -1
    } else if p[b - 1] == '.' {
        b - 1
    } else {
        last_dot_from(p, a, b - 1)
    }
}

/// The extension of the path `p`, the way `Path::extension` finds it:
/// what follows the last '.' of the file name, when that '.' is not its
/// first character.
pub open spec fn extension_spec(p: Seq<char>) -> Option<Seq<char>> {
    match file_name_from(p, p.len() as int) {
        None => None,
        Some((a, b)) => {
            let d = last_dot_from(p, a, b);
            if d <= a {
                None
            } else {
                Some(p.subrange(d + 1, b))
            }
        },
    }
}

/// The bounds of the file name of `p`, if it has one.
fn file_name_range(p: &str) -> (r: Option<(usize, usize)>)
    ensures
        match r {
            Some((a, b)) => a <= b <= p@.len() && file_name_from(p@, p@.len() as int) == Some(
                (a as int, b as int),
            ),
            None => file_name_from(p@, p@.len() as int) is None,
        },
{
    let n = p.unicode_len();
    let mut end: usize = n;
    loop
        invariant
            n == p@.len(),
            end <= n,
            file_name_from(p@, end as int) == file_name_from(p@, n as int),
        decreases end,
    {
        let mut e: usize = end;
        while e > 0 && p.get_char(e - 1) == '/'
            invariant
                n == p@.len(),
                e <= end <= n,
                strip_end(p@, e as int) == strip_end(p@, end as int),
            decreases e,
        {
            e = e - 1;
        }
        assert(strip_end(p@, end as int) == e);
        if e == 0 {
            return None;
        }
        let mut k: usize = e;
        while k > 0 && p.get_char(k - 1) != '/'
            invariant
                n == p@.len(),
                k <= e <= n,
                comp_start(p@, k as int) == comp_start(p@, e as int),
            decreases k,
        {
            k = k - 1;
        }
        assert(comp_start(p@, e as int) == k);
        if e - k == 1 && p.get_char(k) == '.' {
            end = k;
        } else if e - k == 2 && p.get_char(k) == '.' && p.get_char(k + 1) == '.' {
            return None;
        } else {
            return Some((k, e));
        }
    }
}

/// The extension of a path (`Path::extension`).
pub fn path_extension(p: &str) -> (r: Option<String>)
    ensures
        match extension_spec(p@) {
            Some(e) => r matches Some(s) && s@ == e,
            None => r is None,
        },
{
    match file_name_range(p) {
        None => None,
        Some((a, b)) => {
            let mut d: usize = b;
            while d > a && p.get_char(d - 1) != '.'
                invariant
                    a <= d <= b <= p@.len(),
                    last_dot_from(p@, a as int, d as int) == last_dot_from(p@, a as int, b as int),
                decreases d,
            {
                d = d - 1;
            }
            if d == a || d - 1 == a {
                None
            } else {
                Some(String::from_str(p.substring_char(d, b)))
            }
        },
    }
}

/// `c` with an ASCII capital letter made small.
pub open spec fn ascii_lower(c: char) -> char {
    if 'A' <= c && c <= 'Z' {
        ((c as u32) + 32) as char
    } else {
        c
    }
}

/// Whether `s` is `t` when ASCII letters are compared without case.
pub open spec fn eq_ignore_ascii_case_spec(s: Seq<char>, t: Seq<char>) -> bool {
    s.len() == t.len() && forall|i: int| 0 <= i < s.len() ==> ascii_lower(#[trigger] s[i]) == ascii_lower(t[i])
}

/// Compares two strings, ASCII letters without case.
pub fn eq_ignore_ascii_case(s: &str, t: &str) -> (r: bool)
    ensures
        r == eq_ignore_ascii_case_spec(s@, t@),
{
    let n = s.unicode_len();
    if n != t.unicode_len() {
        return false;
    }
    let mut i: usize = 0;
    while i < n
        invariant
            n == s@.len(),
            n == t@.len(),
            i <= n,
            forall|j: int| 0 <= j < i ==> ascii_lower(#[trigger] s@[j]) == ascii_lower(t@[j]),
        decreases n - i,
    {
        let c = s.get_char(i);
        let d = t.get_char(i);
        let lc = if 'A' <= c && c <= 'Z' { ((c as u32) + 32) as u8 as char } else { c };
        let ld = if 'A' <= d && d <= 'Z' { ((d as u32) + 32) as u8 as char } else { d };
        if lc != ld {
            return false;
        }
        i = i + 1;
    }
    true
}

/// How an icon file is decoded.
#[derive(Debug, Clone, Copy, PartialEq, Eq, Structural)]
pub enum IconFormat {
    /// SVG, rendered at the wanted size
    Svg,
    /// PNG or JPEG, scaled to the wanted size
    Raster,
}

/// The extension of `p`, empty when it has none.
pub open spec fn extension_or_empty(p: Seq<char>) -> Seq<char> {
    match extension_spec(p) {
        Some(e) => e,
        None => Seq::empty(),
    }
}

/// The format of an icon file, by its extension without regard to ASCII
/// case (no other character lower-cases to one of these extensions'
/// letters): `svg`, or `png`, `jpg` and `jpeg`; any other extension, or
/// none, is refused with a message that names it.
pub open spec fn icon_format_spec(p: Seq<char>) -> Result<IconFormat, Seq<char>> {
    let e = extension_or_empty(p);
    if eq_ignore_ascii_case_spec(e, "svg"@) {
        Ok(IconFormat::Svg)
    } else if eq_ignore_ascii_case_spec(e, "png"@) || eq_ignore_ascii_case_spec(e, "jpg"@)
        || eq_ignore_ascii_case_spec(e, "jpeg"@) {
        Ok(IconFormat::Raster)
    } else {
        Err("Unsupported icon format: "@ + e)
    }
}

/// The format of an icon file, from its path.
pub fn icon_format(path: &str) -> (r: Result<IconFormat, String>)
    ensures
        match icon_format_spec(path@) {
            Ok(f) => r == Ok::<IconFormat, String>(f),
            Err(m) => r matches Err(e) && e@ == m,
        },
{
    let ext = match path_extension(path) {
        Some(e) => e,
        None => String::new(),
    };
    let e = ext.as_str();
    if eq_ignore_ascii_case(e, "svg") {
        Ok(IconFormat::Svg)
    } else if eq_ignore_ascii_case(e, "png") || eq_ignore_ascii_case(e, "jpg")
        || eq_ignore_ascii_case(e, "jpeg") {
        Ok(IconFormat::Raster)
    } else {
        let mut m = String::from_str("Unsupported icon format: ");
        m.append(e);
        Err(m)
    }
}

impl IconData {
    /// The icon of an image file: the file's format decides whether it can
    /// be loaded at all; `decoded` is what decoding it at the wanted size
    /// gave (width, height and Cairo BGRA data, or the decoder's error).
    pub fn load_from_file(path: &str, decoded: Result<(i32, i32, Vec<u8>), String>) -> (r: Result<
        IconData,
        String,
    >)
        ensures
            match icon_format_spec(path@) {
                Err(m) => r matches Err(e) && e@ == m,
                Ok(_) => match decoded {
                    Ok((w, h, d)) => r matches Ok(IconData::Pixmap { width, height, data })
                        && width == w && height == h && data@ == d@,
                    Err(m) => r matches Err(e) && e@ == m@,
                },
            },
    {
        match icon_format(path) {
            Err(e) => Err(e),
            Ok(_) => match decoded {
                Ok((width, height, data)) => Ok(IconData::Pixmap { width, height, data }),
                Err(e) => Err(e),
            },
        }
    }
}

// ---------------------------------------------------------------------
// Theme icon lookup
// ---------------------------------------------------------------------

/// Icon themes searched, in priority order.
pub open spec fn icon_themes() -> Seq<Seq<char>> {
    seq!["Adwaita"@, "breeze"@, "Papirus"@, "hicolor"@]
}

/// Icon categories searched, in priority order.
pub open spec fn icon_categories() -> Seq<Seq<char>> {
    seq!["apps"@, "status"@, "devices"@, "actions"@, "places"@]
}

/// Pixel sizes tried: the wanted one first, then the usual ones.
pub open spec fn icon_sizes(size: u32) -> Seq<u32> {
    seq![size, 48, 32, 24, 22, 16]
}

/// Icon directories searched: the user's data directory and
/// `~/.local/share` (when known), then the system-wide ones.
pub open spec fn search_dirs(data_dir: Option<Seq<char>>, home_dir: Option<Seq<char>>) -> Seq<
    Seq<char>,
> {
    (match data_dir {
        Some(d) => seq![join_path_spec(d, "icons"@)],
        None => Seq::empty(),
    }) + (match home_dir {
        Some(h) => seq![join_path_spec(h, ".local/share/icons"@)],
        None => Seq::empty(),
    }) + seq!["/usr/share/icons"@, "/usr/share/pixmaps"@]
}

/// The scalable icons of one category in a theme directory: the icon,
/// then its symbolic variant.
pub open spec fn svg_pair(base: Seq<char>, category: Seq<char>, name: Seq<char>) -> Seq<Seq<char>> {
    let dir = join_path_spec(join_path_spec(base, "scalable"@), category);
    seq![join_path_spec(dir, name + ".svg"@), join_path_spec(dir, name + "-symbolic.svg"@)]
}

/// The scalable icons of the first `n` categories.
pub open spec fn svg_candidates(base: Seq<char>, name: Seq<char>, n: nat) -> Seq<Seq<char>>
    decreases n,
{
    if n == 0 {
        Seq::empty()
    } else {
        svg_candidates(base, name, (n - 1) as nat) + svg_pair(
            base,
            icon_categories()[n - 1],
            name,
        )
    }
}

/// The directory name of a pixel size, such as `48x48`.
pub open spec fn size_dir(sz: u32) -> Seq<char> {
    dec_nat(sz as nat) + "x"@ + dec_nat(sz as nat)
}

/// The PNG icons of one size in the first `n` categories.
pub open spec fn png_for_size(base: Seq<char>, name: Seq<char>, sz: u32, n: nat) -> Seq<Seq<char>>
    decreases n,
{
    if n == 0 {
        Seq::empty()
    } else {
        png_for_size(base, name, sz, (n - 1) as nat) + seq![
            join_path_spec(
                join_path_spec(join_path_spec(base, size_dir(sz)), icon_categories()[n - 1]),
                name + ".png"@,
            ),
        ]
    }
}

/// The PNG icons of the first `m` sizes.
pub open spec fn png_candidates(base: Seq<char>, name: Seq<char>, size: u32, m: nat) -> Seq<
    Seq<char>,
>
    decreases m,
{
    if m == 0 {
        Seq::empty()
    } else {
        png_candidates(base, name, size, (m - 1) as nat) + png_for_size(
            base,
            name,
            icon_sizes(size)[m - 1],
            5,
        )
    }
}

/// The icons of the first `t` themes in an icon directory: for each
/// theme its scalable icons, then its PNG icons.
pub open spec fn theme_candidates(dir: Seq<char>, name: Seq<char>, size: u32, t: nat) -> Seq<
    Seq<char>,
>
    decreases t,
{
    if t == 0 {
        Seq::empty()
    } else {
        let base = join_path_spec(dir, icon_themes()[t - 1]);
        theme_candidates(dir, name, size, (t - 1) as nat) + svg_candidates(base, name, 5)
            + png_candidates(base, name, size, 6)
    }
}

/// The icons in a list of icon directories.
pub open spec fn dirs_candidates(dirs: Seq<Seq<char>>, name: Seq<char>, size: u32) -> Seq<
    Seq<char>,
>
    decreases dirs.len(),
{
    if dirs.len() == 0 {
        Seq::empty()
    } else {
        dirs_candidates(dirs.drop_last(), name, size) + theme_candidates(dirs.last(), name, size, 4)
    }
}

/// Every file that may hold the theme icon `name`, in the order they are
/// tried: the icon directories' themes, then `/usr/share/pixmaps`.
pub open spec fn theme_icon_candidates_spec(
    data_dir: Option<Seq<char>>,
    home_dir: Option<Seq<char>>,
    name: Seq<char>,
    size: u32,
) -> Seq<Seq<char>> {
    dirs_candidates(search_dirs(data_dir, home_dir), name, size) + seq![
        "/usr/share/pixmaps/"@ + name + ".svg"@,
        "/usr/share/pixmaps/"@ + name + ".png"@,
    ]
}

fn category(i: usize) -> (c: &'static str)
    requires
        i < 5,
    ensures
        c@ == icon_categories()[i as int],
{
    match i {
        0 => "apps",
        1 => "status",
        2 => "devices",
        3 => "actions",
        _ => "places",
    }
}

fn theme(i: usize) -> (t: &'static str)
    requires
        i < 4,
    ensures
        t@ == icon_themes()[i as int],
{
    match i {
        0 => "Adwaita",
        1 => "breeze",
        2 => "Papirus",
        _ => "hicolor",
    }
}

fn size_at(size: u32, i: usize) -> (s: u32)
    requires
        i < 6,
    ensures
        s == icon_sizes(size)[i as int],
{
    match i {
        0 => size,
        1 => 48,
        2 => 32,
        3 => 24,
        4 => 22,
        _ => 16,
    }
}

fn push_svg_candidates(out: &mut Vec<String>, base: &str, name: &str)
    ensures
        views(final(out)@) == views(old(out)@) + svg_candidates(base@, name@, 5),
{
    let ghost orig = views(out@);
    let scalable = join_path(base, "scalable");
    let svg_name = concat_str(name, ".svg");
    let symbolic_name = concat_str(name, "-symbolic.svg");
    let mut i: usize = 0;
    while i < 5
        invariant
            i <= 5,
            scalable@ == join_path_spec(base@, "scalable"@),
            svg_name@ == name@ + ".svg"@,
            symbolic_name@ == name@ + "-symbolic.svg"@,
            views(out@) == orig + svg_candidates(base@, name@, i as nat),
        decreases 5 - i,
    {
        let dir = join_path(scalable.as_str(), category(i));
        let a = join_path(dir.as_str(), svg_name.as_str());
        let b = join_path(dir.as_str(), symbolic_name.as_str());
        proof {
            lemma_views_push(out@, a);
            lemma_views_push(out@.push(a), b);
        }
        out.push(a);
        out.push(b);
        i = i + 1;
        assert(views(out@) =~= orig + svg_candidates(base@, name@, i as nat));
    }
}

fn push_png_for_size(out: &mut Vec<String>, base: &str, name: &str, sz: u32)
    ensures
        views(final(out)@) == views(old(out)@) + png_for_size(base@, name@, sz, 5),
{
    let ghost orig = views(out@);
    let png_name = concat_str(name, ".png");
    let digits = u64_to_string(sz as u64);
    let sd = concat_str(digits.as_str(), "x");
    let sd = concat_str(sd.as_str(), digits.as_str());
    let size_path = join_path(base, sd.as_str());
    let mut i: usize = 0;
    while i < 5
        invariant
            i <= 5,
            png_name@ == name@ + ".png"@,
            size_path@ == join_path_spec(base@, size_dir(sz)),
            views(out@) == orig + png_for_size(base@, name@, sz, i as nat),
        decreases 5 - i,
    {
        let dir = join_path(size_path.as_str(), category(i));
        let a = join_path(dir.as_str(), png_name.as_str());
        proof {
            lemma_views_push(out@, a);
        }
        out.push(a);
        i = i + 1;
        assert(views(out@) =~= orig + png_for_size(base@, name@, sz, i as nat));
    }
}

fn push_png_candidates(out: &mut Vec<String>, base: &str, name: &str, size: u32)
    ensures
        views(final(out)@) == views(old(out)@) + png_candidates(base@, name@, size, 6),
{
    let ghost orig = views(out@);
    let mut i: usize = 0;
    while i < 6
        invariant
            i <= 6,
            views(out@) == orig + png_candidates(base@, name@, size, i as nat),
        decreases 6 - i,
    {
        push_png_for_size(out, base, name, size_at(size, i));
        i = i + 1;
        assert(views(out@) =~= orig + png_candidates(base@, name@, size, i as nat));
    }
}

fn push_dir_candidates(out: &mut Vec<String>, dir: &str, name: &str, size: u32)
    ensures
        views(final(out)@) == views(old(out)@) + theme_candidates(dir@, name@, size, 4),
{
    let ghost orig = views(out@);
    let mut t: usize = 0;
    while t < 4
        invariant
            t <= 4,
            views(out@) == orig + theme_candidates(dir@, name@, size, t as nat),
        decreases 4 - t,
    {
        let base = join_path(dir, theme(t));
        push_svg_candidates(out, base.as_str(), name);
        push_png_candidates(out, base.as_str(), name, size);
        t = t + 1;
        assert(views(out@) =~= orig + theme_candidates(dir@, name@, size, t as nat));
    }
}

/// The icon directories searched, for the user's data and home
/// directories.
fn search_dir_list(data_dir: Option<&str>, home_dir: Option<&str>) -> (r: Vec<String>)
    ensures
        views(r@) == search_dirs(
            match data_dir {
                Some(d) => Some(d@),
                None => None,
            },
            match home_dir {
                Some(h) => Some(h@),
                None => None,
            },
        ),
{
    let mut r: Vec<String> = Vec::new();
    if let Some(d) = data_dir {
        r.push(join_path(d, "icons"));
    }
    if let Some(h) = home_dir {
        r.push(join_path(h, ".local/share/icons"));
    }
    r.push(String::from_str("/usr/share/icons"));
    r.push(String::from_str("/usr/share/pixmaps"));
    assert(views(r@) =~= search_dirs(
        match data_dir {
            Some(d) => Some(d@),
            None => None,
        },
        match home_dir {
            Some(h) => Some(h@),
            None => None,
        },
    ));
    r
}

/// Every file that may hold the theme icon `name` at `size` pixels, in
/// the order they are tried, for the given data and home directories.
pub fn theme_icon_candidates(data_dir: Option<&str>, home_dir: Option<&str>, name: &str, size: u32) -> (r: Vec<String>)
    ensures
        views(r@) == theme_icon_candidates_spec(
            match data_dir {
                Some(d) => Some(d@),
                None => None,
            },
            match home_dir {
                Some(h) => Some(h@),
                None => None,
            },
            name@,
            size,
        ),
{
    let dirs = search_dir_list(data_dir, home_dir);
    let ghost ds = views(dirs@);
    let mut out: Vec<String> = Vec::new();
    let mut i: usize = 0;
    while i < dirs.len()
        invariant
            i <= dirs@.len(),
            ds == views(dirs@),
            views(out@) == dirs_candidates(ds.take(i as int), name@, size),
        decreases dirs@.len() - i,
    {
        proof {
            assert(ds.take(i + 1).drop_last() =~= ds.take(i as int));
        }
        push_dir_candidates(&mut out, dirs[i].as_str(), name, size);
        i = i + 1;
    }
    assert(ds.take(dirs@.len() as int) =~= ds);
    let ghost before = views(out@);
    let p1 = concat_str("/usr/share/pixmaps/", name);
    let p2 = concat_str(p1.as_str(), ".svg");
    let p3 = concat_str(p1.as_str(), ".png");
    proof {
        lemma_views_push(out@, p2);
        lemma_views_push(out@.push(p2), p3);
    }
    out.push(p2);
    out.push(p3);
    assert(views(out@) =~= before + seq![
        "/usr/share/pixmaps/"@ + name@ + ".svg"@,
        "/usr/share/pixmaps/"@ + name@ + ".png"@,
    ]);
    out
}

/// The path at the first place `i` or later where `exists` answers true,
/// among the places that both `paths` and `exists` cover.
pub open spec fn first_marked_from(paths: Seq<Seq<char>>, exists: Seq<bool>, i: int) -> Option<
    Seq<char>,
>
    decreases paths.len() - i,
{
    if i < 0 || i >= paths.len() || i >= exists.len() {
        None
    } else if exists[i] {
        Some(paths[i])
    } else {
        first_marked_from(paths, exists, i + 1)
    }
}

/// Places before `i` answered false do not change the first marked path.
proof fn lemma_first_marked_skip(paths: Seq<Seq<char>>, exists: Seq<bool>, k: int, i: int)
    requires
        0 <= k <= i,
        i <= paths.len(),
        i <= exists.len(),
        forall|j: int| 0 <= j < i ==> !#[trigger] exists[j],
    ensures
        first_marked_from(paths, exists, k) == first_marked_from(paths, exists, i),
    decreases i - k,
{
    if k < i {
        lemma_first_marked_skip(paths, exists, k + 1, i);
    }
}

/// A marked path is one of the paths.
proof fn lemma_first_marked_member(paths: Seq<Seq<char>>, exists: Seq<bool>, i: int)
    requires
        0 <= i,
    ensures
        first_marked_from(paths, exists, i) matches Some(p) ==> paths.contains(p),
    decreases paths.len() - i,
{
    if 0 <= i < paths.len() && i < exists.len() {
        if exists[i] {
            assert(paths[i] == paths[i]);
        } else {
            lemma_first_marked_member(paths, exists, i + 1);
        }
    }
}

/// The first of `paths` whose answer in `exists` is true (the answers
/// are for the paths in order; they may stop early); `None` when there
/// is none.
pub fn first_marked(paths: &Vec<String>, exists: &Vec<bool>) -> (r: Option<String>)
    ensures
        match r {
            Some(p) => first_marked_from(views(paths@), exists@, 0) == Some(p@),
            None => first_marked_from(views(paths@), exists@, 0) is None,
        },
{
    let mut i: usize = 0;
    while i < paths.len() && i < exists.len()
        invariant
            i <= paths@.len(),
            i <= exists@.len(),
            forall|j: int| 0 <= j < i ==> !#[trigger] exists@[j],
        decreases paths@.len() - i,
    {
        if exists[i] {
            proof {
                lemma_first_marked_skip(views(paths@), exists@, 0, i as int);
            }
            let p = paths[i].clone();
            assert(views(paths@)[i as int] == p@);
            return Some(p);
        }
        i = i + 1;
    }
    proof {
        lemma_first_marked_skip(views(paths@), exists@, 0, i as int);
    }
    None
}

/// The first of `paths` that exists on disk, checked in order up to the
/// first that does. What is on disk is not known here, so only this is
/// stated: the result is the first marked path for some answers, a path
/// that comes back is one of `paths`, and nothing comes back from an
/// empty list. `first_marked` says what comes back for given answers.
pub fn first_existing(paths: &Vec<String>) -> (r: Option<String>)
    ensures
        match r {
            Some(p) => views(paths@).contains(p@),
            None => true,
        },
        paths@.len() == 0 ==> r is None,
        exists|answers: Seq<bool>|
            answers.len() <= paths@.len() && #[trigger] first_marked_from(views(paths@), answers, 0)
                == match r {
                Some(p) => Some(p@),
                None => None::<Seq<char>>,
            },
{
    let mut answers: Vec<bool> = Vec::new();
    let mut i: usize = 0;
    while i < paths.len()
        invariant_except_break
            i <= paths@.len(),
            answers@.len() == i,
            forall|j: int| 0 <= j < i ==> !#[trigger] answers@[j],
        ensures
            answers@.len() <= paths@.len(),
        decreases paths@.len() - i,
    {
        let e = host::path_exists(paths[i].as_str());
        answers.push(e);
        if e {
            break;
        }
        i = i + 1;
    }
    let r = first_marked(paths, &answers);
    proof {
        lemma_first_marked_member(views(paths@), answers@, 0);
    }
    r
}

impl IconData {
    /// Looks for the file of the theme icon `name` at `size` pixels among
    /// the user's and the system's icon themes and pixmaps. The user's
    /// directories and what is on disk are not known here: a path that
    /// comes back is one of the candidates for some data and home
    /// directory.
    pub fn find_theme_icon(name: &str, size: u32) -> (r: Option<String>)
        ensures
            match r {
                Some(p) => exists|d: Option<Seq<char>>, h: Option<Seq<char>>| #[trigger]
                    theme_icon_candidates_spec(d, h, name@, size).contains(p@),
                None => true,
            },
    {
        let data = host::data_dir();
        let home = host::home_dir();
        let candidates = match (&data, &home) {
            (Some(d), Some(h)) => theme_icon_candidates(Some(d.as_str()), Some(h.as_str()), name, size),
            (Some(d), None) => theme_icon_candidates(Some(d.as_str()), None, name, size),
            (None, Some(h)) => theme_icon_candidates(None, Some(h.as_str()), name, size),
            (None, None) => theme_icon_candidates(None, None, name, size),
        };
        let ghost dv: Option<Seq<char>> = match data {
            Some(d) => Some(d@),
            None => None,
        };
        let ghost hv: Option<Seq<char>> = match home {
            Some(h) => Some(h@),
            None => None,
        };
        assert(views(candidates@) == theme_icon_candidates_spec(dv, hv, name@, size));
        first_existing(&candidates)
    }
}

} // verus!
