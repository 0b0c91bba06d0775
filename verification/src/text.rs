//! Text helpers shared by the panel, the tray and the control client:
//! decimal formatting and parsing, whitespace trimming, path joining and
//! the few `String` edits that the modules perform.

use vstd::prelude::*;
use vstd::string::*;
use vstd::utf8::*;

verus! {

// ---------------------------------------------------------------------
// Decimal formatting
// ---------------------------------------------------------------------

/// The ASCII digit for `d` (`d < 10`).
pub open spec fn digit_char(d: nat) -> char {
    ((48 + d) as u8) as char
}

/// Decimal representation of a natural number, most significant digit
/// first, without leading zeros ("0" for zero).
pub open spec fn dec_nat(n: nat) -> Seq<char>
    decreases n,
{
    if n < 10 {
        seq![digit_char(n)]
    } else {
        dec_nat(n / 10).push(digit_char(n % 10))
    }
}

/// Decimal representation of an integer, with a leading '-' when negative.
pub open spec fn dec_int(n: int) -> Seq<char> {
    if n < 0 {
        seq!['-'] + dec_nat((-n) as nat)
    } else {
        dec_nat(n as nat)
    }
}

/// Appends `c` to `s`.
#[verifier::external_body]
pub(crate) fn push_char(s: &mut String, c: char)
    ensures
        final(s)@ == old(s)@.push(c),
{
    s.push(c);
}

/// The ASCII digit for `d`.
pub fn digit_to_char(d: u64) -> (c: char)
    requires
        d < 10,
    ensures
        c == digit_char(d as nat),
{
    ((48 + d) as u8) as char
}

/// Decimal text of an unsigned number.
pub fn u64_to_string(n: u64) -> (s: String)
    ensures
        s@ == dec_nat(n as nat),
    decreases n,
{
    if n < 10 {
        let mut s = String::new();
        push_char(&mut s, digit_to_char(n));
        assert(s@ =~= seq![digit_char(n as nat)]);
        s
    } else {
        let mut s = u64_to_string(n / 10);
        push_char(&mut s, digit_to_char(n % 10));
        s
    }
}

/// Decimal text of a signed number.
pub fn i64_to_string(n: i64) -> (s: String)
    ensures
        s@ == dec_int(n as int),
{
    if n < 0 {
        let m: u64 = ((-(n + 1)) as u64) + 1;
        assert(m == -n);
        let digits = u64_to_string(m);
        let mut s = String::new();
        push_char(&mut s, '-');
        s.append(digits.as_str());
        assert(s@ =~= seq!['-'] + dec_nat(m as nat));
        s
    } else {
        u64_to_string(n as u64)
    }
}

/// Integer division rounding toward zero, as Rust's `/` does.
pub open spec fn div_trunc(a: int, b: int) -> int {
    if a >= 0 {
        a / b
    } else {
        -((-a) / b)
    }
}

/// The remainder that goes with `div_trunc`, as Rust's `%` gives it.
pub open spec fn rem_trunc(a: int, b: int) -> int {
    a - b * div_trunc(a, b)
}

// ---------------------------------------------------------------------
// Whitespace and trimming
// ---------------------------------------------------------------------

/// The characters with the Unicode `White_Space` property, which is what
/// `char::is_whitespace` and `str::trim` go by.
pub open spec fn is_ws(c: char) -> bool {
    let u = c as u32;
    ||| (0x09 <= u && u <= 0x0D)
    ||| u == 0x20
    ||| u == 0x85
    ||| u == 0xA0
    ||| u == 0x1680
    ||| (0x2000 <= u && u <= 0x200A)
    ||| u == 0x2028
    ||| u == 0x2029
    ||| u == 0x202F
    ||| u == 0x205F
    ||| u == 0x3000
}

/// Whether `c` has the Unicode `White_Space` property.
pub fn char_is_ws(c: char) -> (b: bool)
    ensures
        b == is_ws(c),
{
    let u = c as u32;
    (0x09 <= u && u <= 0x0D) || u == 0x20 || u == 0x85 || u == 0xA0 || u == 0x1680 || (0x2000
        <= u && u <= 0x200A) || u == 0x2028 || u == 0x2029 || u == 0x202F || u == 0x205F || u
        == 0x3000
}

/// Index of the first character that is not whitespace (the length when
/// there is none).
pub open spec fn first_non_ws(s: Seq<char>) -> int
    decreases s.len(),
{
    if s.len() == 0 {
        0
    } else if is_ws(s[0]) {
        1 + first_non_ws(s.drop_first())
    } else {
        0
    }
}

/// One past the index of the last character that is not whitespace (zero
/// when there is none).
pub open spec fn end_non_ws(s: Seq<char>) -> int
    decreases s.len(),
{
    if s.len() == 0 {
        0
    } else if is_ws(s.last()) {
        end_non_ws(s.drop_last())
    } else {
        s.len() as int
    }
}

/// `s` without leading and trailing whitespace.
pub open spec fn trim_spec(s: Seq<char>) -> Seq<char> {
    if end_non_ws(s) <= first_non_ws(s) {
        Seq::empty()
    } else {
        s.subrange(first_non_ws(s), end_non_ws(s))
    }
}

/// Whether every character of `s` is whitespace, that is, whether
/// trimming leaves nothing.
pub open spec fn all_ws(s: Seq<char>) -> bool {
    forall|i: int| 0 <= i < s.len() ==> is_ws(#[trigger] s[i])
}

proof fn lemma_first_non_ws(s: Seq<char>)
    ensures
        0 <= first_non_ws(s) <= s.len(),
        forall|i: int| 0 <= i < first_non_ws(s) ==> is_ws(#[trigger] s[i]),
        first_non_ws(s) < s.len() ==> !is_ws(s[first_non_ws(s)]),
    decreases s.len(),
{
    if s.len() > 0 && is_ws(s[0]) {
        lemma_first_non_ws(s.drop_first());
        assert forall|i: int| 0 <= i < first_non_ws(s) implies is_ws(#[trigger] s[i]) by {
            if i > 0 {
                assert(s[i] == s.drop_first()[i - 1]);
            }
        }
    }
}

proof fn lemma_end_non_ws(s: Seq<char>)
    ensures
        0 <= end_non_ws(s) <= s.len(),
        forall|i: int| end_non_ws(s) <= i < s.len() ==> is_ws(#[trigger] s[i]),
        end_non_ws(s) > 0 ==> !is_ws(s[end_non_ws(s) - 1]),
    decreases s.len(),
{
    if s.len() > 0 && is_ws(s.last()) {
        lemma_end_non_ws(s.drop_last());
        assert forall|i: int| end_non_ws(s) <= i < s.len() implies is_ws(#[trigger] s[i]) by {
            if i < s.len() - 1 {
                assert(s[i] == s.drop_last()[i]);
            }
        }
    }
}

/// Characterises the trim bounds by what lies outside and at them.
pub proof fn lemma_trim_bounds(s: Seq<char>)
    ensures
        0 <= first_non_ws(s) <= s.len(),
        0 <= end_non_ws(s) <= s.len(),
        forall|i: int| 0 <= i < first_non_ws(s) ==> is_ws(#[trigger] s[i]),
        forall|i: int| end_non_ws(s) <= i < s.len() ==> is_ws(#[trigger] s[i]),
        first_non_ws(s) < s.len() ==> !is_ws(s[first_non_ws(s)]),
        end_non_ws(s) > 0 ==> !is_ws(s[end_non_ws(s) - 1]),
        all_ws(s) <==> first_non_ws(s) == s.len(),
        all_ws(s) <==> end_non_ws(s) == 0,
        !all_ws(s) ==> first_non_ws(s) < end_non_ws(s),
{
    lemma_first_non_ws(s);
    lemma_end_non_ws(s);
    if !all_ws(s) {
        let k = choose|k: int| 0 <= k < s.len() && !is_ws(#[trigger] s[k]);
        assert(first_non_ws(s) <= k);
        assert(k < end_non_ws(s));
    }
}

/// The bounds of `s` without its leading and trailing whitespace, in
/// characters.
pub fn trim_bounds(s: &str) -> (r: (usize, usize))
    ensures
        r.0 <= r.1 <= s@.len(),
        r.0 as int == first_non_ws(s@),
        r.1 as int == if end_non_ws(s@) <= first_non_ws(s@) {
            first_non_ws(s@)
        } else {
            end_non_ws(s@)
        },
        trim_spec(s@) == s@.subrange(r.0 as int, r.1 as int),
{
    proof {
        lemma_trim_bounds(s@);
    }
    let n = s.unicode_len();
    let mut start: usize = 0;
    while start < n && char_is_ws(s.get_char(start))
        invariant
            n == s@.len(),
            start <= n,
            forall|i: int| 0 <= i < start ==> is_ws(#[trigger] s@[i]),
            start <= first_non_ws(s@),
            0 <= first_non_ws(s@) <= s@.len(),
            first_non_ws(s@) < s@.len() ==> !is_ws(s@[first_non_ws(s@)]),
        decreases n - start,
    {
        start = start + 1;
    }
    let mut end: usize = n;
    while end > start && char_is_ws(s.get_char(end - 1))
        invariant
            n == s@.len(),
            start <= end <= n,
            start as int == first_non_ws(s@),
            end >= end_non_ws(s@) || end == start,
            0 <= end_non_ws(s@) <= s@.len(),
            end_non_ws(s@) > 0 ==> !is_ws(s@[end_non_ws(s@) - 1]),
            forall|i: int| end <= i < n ==> is_ws(#[trigger] s@[i]),
            forall|i: int| 0 <= i < start ==> is_ws(#[trigger] s@[i]),
        decreases end,
    {
        end = end - 1;
    }
    proof {
        if end_non_ws(s@) <= first_non_ws(s@) {
            assert(s@.subrange(start as int, end as int) =~= Seq::<char>::empty()) by {
                if end > start {
                    // every character in between is whitespace, so end would have moved
                    assert(!is_ws(s@[end - 1]) || end == start);
                }
            }
        }
    }
    (start, end)
}

/// Whether `s` consists of whitespace only (so that trimming it leaves an
/// empty string).
pub fn is_blank(s: &str) -> (b: bool)
    ensures
        b == all_ws(s@),
        b == (trim_spec(s@).len() == 0),
{
    proof {
        lemma_trim_bounds(s@);
    }
    let (start, end) = trim_bounds(s);
    start == end
}

/// Whether `s`, without its leading and trailing whitespace, is `t`.
pub fn trimmed_equals(s: &str, t: &str) -> (r: bool)
    ensures
        r == (trim_spec(s@) == t@),
{
    let (start, end) = trim_bounds(s);
    let inner = s.substring_char(start, end);
    str_eq(inner, t)
}

/// The text of `s` without its leading and trailing whitespace.
pub fn trimmed(s: &str) -> (r: String)
    ensures
        r@ == trim_spec(s@),
{
    let (start, end) = trim_bounds(s);
    String::from_str(s.substring_char(start, end))
}

// ---------------------------------------------------------------------
// Debug and boolean text
// ---------------------------------------------------------------------

/// The `Debug` text of a string: quoted, with its special characters
/// escaped.
pub uninterp spec fn debug_str(s: Seq<char>) -> Seq<char>;

/// The `Debug` text of `s` (`format!("{:?}", s)`). Its characters go
/// through `char::escape_debug`, which writes a line feed as the two
/// characters `\n`, so the text holds no line feed.
#[verifier::external_body]
pub(crate) fn debug_quoted(s: &str) -> (r: String)
    ensures
        r@ == debug_str(s@),
        forall|i: int| 0 <= i < r@.len() ==> #[trigger] r@[i] != '\n',
{
    format!("{:?}", s)
}

/// `true` or `false`.
pub open spec fn bool_text(b: bool) -> Seq<char> {
    if b {
        "true"@
    } else {
        "false"@
    }
}

/// `true` or `false`, as `{}` prints a `bool`.
pub fn bool_to_string(b: bool) -> (s: String)
    ensures
        s@ == bool_text(b),
{
    if b {
        String::from_str("true")
    } else {
        String::from_str("false")
    }
}

// ---------------------------------------------------------------------
// Decimal parsing
// ---------------------------------------------------------------------

/// Whether `c` is an ASCII decimal digit.
pub open spec fn is_digit(c: char) -> bool {
    '0' <= c && c <= '9'
}

/// Whether `s` is non-empty and made of ASCII digits only.
pub open spec fn all_digits(s: Seq<char>) -> bool {
    s.len() > 0 && forall|i: int| 0 <= i < s.len() ==> is_digit(#[trigger] s[i])
}

/// The value of a string of decimal digits.
pub open spec fn digits_value(s: Seq<char>) -> nat
    decreases s.len(),
{
    if s.len() == 0 {
        0
    } else {
        digits_value(s.drop_last()) * 10 + ((s.last() as u32) - 48) as nat
    }
}

/// What `str::parse::<u32>` gives for `t`: an optional '+', then one or
/// more ASCII digits whose value fits.
pub open spec fn parse_u32_spec(t: Seq<char>) -> Option<u32> {
    let body = if t.len() > 0 && t[0] == '+' {
        t.drop_first()
    } else {
        t
    };
    if all_digits(body) && digits_value(body) <= u32::MAX {
        Some(digits_value(body) as u32)
    } else {
        None
    }
}


/// The decimal text of a number reads back as its digits' value.
pub proof fn lemma_dec_nat_digits(n: nat)
    ensures
        all_digits(dec_nat(n)),
        digits_value(dec_nat(n)) == n,
        dec_nat(n).len() > 0,
    decreases n,
{
    if n < 10 {
        let s = dec_nat(n);
        assert(s == seq![digit_char(n)]);
        assert(s.drop_last() =~= Seq::<char>::empty());
        assert(digits_value(s.drop_last()) == 0);
        assert((digit_char(n) as u32) == 48 + n);
        assert(digits_value(s) == digits_value(s.drop_last()) * 10 + ((s.last() as u32) - 48) as nat);
    } else {
        lemma_dec_nat_digits(n / 10);
        let s = dec_nat(n);
        let p = dec_nat(n / 10);
        assert(s == p.push(digit_char(n % 10)));
        assert(s.drop_last() =~= p);
        assert((digit_char(n % 10) as u32) == 48 + n % 10);
        assert(digits_value(s) == digits_value(p) * 10 + ((s.last() as u32) - 48) as nat);
        assert(n == (n / 10) * 10 + n % 10);
        assert forall|i: int| 0 <= i < s.len() implies is_digit(#[trigger] s[i]) by {
            if i < p.len() {
                assert(s[i] == p[i]);
            }
        }
    }
}

/// A number written in decimal reads back as itself (`u32`), as when a
/// PID file is written and read again.
pub proof fn law_u32_text_round_trip(n: u32)
    ensures
        parse_u32_spec(dec_nat(n as nat)) == Some(n),
{
    lemma_dec_nat_digits(n as nat);
    assert(is_digit(dec_nat(n as nat)[0]));
}

/// What `str::parse::<i32>` gives for `t`: an optional sign, then one or
/// more ASCII digits whose signed value fits.
pub open spec fn parse_i32_spec(t: Seq<char>) -> Option<i32> {
    if t.len() > 0 && t[0] == '-' {
        let body = t.drop_first();
        if all_digits(body) && digits_value(body) <= 0x8000_0000 {
            Some((-(digits_value(body) as int)) as i32)
        } else {
            None
        }
    } else {
        let body = if t.len() > 0 && t[0] == '+' {
            t.drop_first()
        } else {
            t
        };
        if all_digits(body) && digits_value(body) <= i32::MAX {
            Some(digits_value(body) as i32)
        } else {
            None
        }
    }
}

/// A signed number written in decimal reads back as itself (`i32`): a
/// PID written to the PID file is the PID read from it.
pub proof fn law_i32_text_round_trip(i: i32)
    ensures
        parse_i32_spec(dec_int(i as int)) == Some(i),
{
    if i < 0 {
        lemma_dec_nat_digits((-(i as int)) as nat);
        let t = dec_int(i as int);
        assert(t.drop_first() =~= dec_nat((-(i as int)) as nat));
    } else {
        lemma_dec_nat_digits(i as nat);
        assert(is_digit(dec_nat(i as nat)[0]));
    }
}

proof fn lemma_digits_value_monotone(s: Seq<char>, k: int)
    requires
        0 <= k <= s.len(),
        forall|i: int| 0 <= i < s.len() ==> is_digit(#[trigger] s[i]),
    ensures
        digits_value(s.subrange(0, k)) <= digits_value(s),
    decreases s.len(),
{
    if k < s.len() {
        assert(s.drop_last() =~= s.subrange(0, s.len() - 1));
        assert(s.subrange(0, k) =~= s.drop_last().subrange(0, k));
        lemma_digits_value_monotone(s.drop_last(), k);
    } else {
        assert(s.subrange(0, k) =~= s);
    }
}

/// Value of the digits `s[from..to]`, or `None` when one of them is not a
/// digit, the range is empty, or the value exceeds `limit`.
fn digits_in_range(s: &str, from: usize, to: usize, limit: u64) -> (r: Option<u64>)
    requires
        from <= to <= s@.len(),
        limit <= u32::MAX + 1,
    ensures
        r matches Some(v) ==> all_digits(s@.subrange(from as int, to as int)) && v
            == digits_value(s@.subrange(from as int, to as int)) && v <= limit,
        r is None ==> !(all_digits(s@.subrange(from as int, to as int)) && digits_value(
            s@.subrange(from as int, to as int),
        ) <= limit),
{
    if from == to {
        return None;
    }
    let ghost body = s@.subrange(from as int, to as int);
    let mut value: u64 = 0;
    let mut i: usize = from;
    while i < to
        invariant
            from <= i <= to <= s@.len(),
            body == s@.subrange(from as int, to as int),
            limit <= u32::MAX + 1,
            forall|j: int| from <= j < i ==> is_digit(#[trigger] s@[j]),
            value == digits_value(s@.subrange(from as int, i as int)),
            value <= limit,
        decreases to - i,
    {
        let c = s.get_char(i);
        if !('0' <= c && c <= '9') {
            assert(body[i - from] == c);
            return None;
        }
        let d = (c as u32 - 48) as u64;
        proof {
            let pre = s@.subrange(from as int, i as int);
            let post = s@.subrange(from as int, i + 1);
            assert(post.drop_last() =~= pre);
            assert(post.last() == c);
        }
        let next = value * 10 + d;
        if next > limit {
            proof {
                let post = s@.subrange(from as int, i + 1);
                assert forall|j: int| 0 <= j < body.len() implies is_digit(#[trigger] body[j])
                    || !all_digits(body) by {}
                if all_digits(body) {
                    assert(post =~= body.subrange(0, i + 1 - from));
                    lemma_digits_value_monotone(body, i + 1 - from);
                }
            }
            return None;
        }
        value = next;
        i = i + 1;
    }
    proof {
        assert(s@.subrange(from as int, i as int) =~= body);
        assert forall|j: int| 0 <= j < body.len() implies is_digit(#[trigger] body[j]) by {
            assert(body[j] == s@[from + j]);
        }
    }
    Some(value)
}

/// `s.trim().parse::<u32>()`, as an option.
pub fn parse_u32_trimmed(s: &str) -> (r: Option<u32>)
    ensures
        r == parse_u32_spec(trim_spec(s@)),
{
    let (start, end) = trim_bounds(s);
    let ghost t = s@.subrange(start as int, end as int);
    let mut from = start;
    if start < end && s.get_char(start) == '+' {
        from = start + 1;
        assert(t.drop_first() =~= s@.subrange(from as int, end as int));
    } else {
        assert(t =~= s@.subrange(from as int, end as int));
    }
    match digits_in_range(s, from, end, 0xFFFF_FFFF) {
        Some(v) => Some(v as u32),
        None => None,
    }
}

/// `s.trim().parse::<i32>()`, as an option.
pub fn parse_i32_trimmed(s: &str) -> (r: Option<i32>)
    ensures
        r == parse_i32_spec(trim_spec(s@)),
{
    let (start, end) = trim_bounds(s);
    let ghost t = s@.subrange(start as int, end as int);
    if start < end && s.get_char(start) == '-' {
        assert(t.drop_first() =~= s@.subrange(start + 1, end as int));
        match digits_in_range(s, start + 1, end, 0x8000_0000) {
            Some(v) => {
                let r: i64 = -(v as i64);
                Some(r as i32)
            },
            None => None,
        }
    } else {
        let mut from = start;
        if start < end && s.get_char(start) == '+' {
            from = start + 1;
            assert(t.drop_first() =~= s@.subrange(from as int, end as int));
        } else {
            assert(t =~= s@.subrange(from as int, end as int));
        }
        match digits_in_range(s, from, end, 0x7FFF_FFFF) {
            Some(v) => Some(v as i32),
            None => None,
        }
    }
}


// ---------------------------------------------------------------------
// Byte positions in UTF-8 text
// ---------------------------------------------------------------------

/// Length in bytes of the UTF-8 encoding of `s`.
pub open spec fn byte_len(s: Seq<char>) -> nat {
    encode_utf8(s).len()
}

/// Whether byte offset `p` of the UTF-8 encoding of `s` falls between two
/// characters (or at either end).
pub open spec fn is_boundary(s: Seq<char>, p: int) -> bool {
    exists|k: int| 0 <= k <= s.len() && #[trigger] byte_len(s.take(k)) == p
}

/// The number of characters before byte offset `p`, when `p` is a
/// boundary.
pub open spec fn char_index(s: Seq<char>, p: int) -> int {
    choose|k: int| 0 <= k <= s.len() && #[trigger] byte_len(s.take(k)) == p
}

/// The encoding of a concatenation is the concatenation of the encodings.
pub proof fn lemma_encode_concat(a: Seq<char>, b: Seq<char>)
    ensures
        encode_utf8(a + b) == encode_utf8(a) + encode_utf8(b),
    decreases a.len(),
{
    if a.len() == 0 {
        assert(a + b =~= b);
        assert(encode_utf8(a) =~= Seq::<u8>::empty());
        assert(encode_utf8(a) + encode_utf8(b) =~= encode_utf8(b));
    } else {
        assert((a + b).drop_first() =~= a.drop_first() + b);
        lemma_encode_concat(a.drop_first(), b);
        assert((a + b)[0] == a[0]);
        assert(encode_utf8(a + b) =~= encode_scalar(a[0] as u32) + encode_utf8(a.drop_first() + b));
        assert(encode_utf8(a) =~= encode_scalar(a[0] as u32) + encode_utf8(a.drop_first()));
    }
}

/// A character takes one to four bytes.
pub proof fn lemma_encode_char_len(c: char)
    ensures
        1 <= encode_utf8(seq![c]).len() <= 4,
        encode_utf8(seq![c]) == encode_scalar(c as u32),
{
    assert(seq![c].drop_first() =~= Seq::<char>::empty());
    assert(encode_utf8(seq![c]) =~= encode_scalar(c as u32) + encode_utf8(Seq::<char>::empty()));
    assert(encode_utf8(Seq::<char>::empty()) =~= Seq::<u8>::empty());
    assert(encode_scalar(c as u32) + Seq::<u8>::empty() =~= encode_scalar(c as u32));
}

/// Byte length adds up over concatenation.
pub proof fn lemma_byte_len_concat(a: Seq<char>, b: Seq<char>)
    ensures
        byte_len(a + b) == byte_len(a) + byte_len(b),
{
    lemma_encode_concat(a, b);
}

/// Each character adds at least one byte: the byte offsets of the
/// character boundaries strictly increase.
pub proof fn lemma_byte_len_take_step(s: Seq<char>, k: int)
    requires
        0 <= k < s.len(),
    ensures
        byte_len(s.take(k + 1)) == byte_len(s.take(k)) + byte_len(seq![s[k]]),
        byte_len(s.take(k)) < byte_len(s.take(k + 1)),
{
    assert(s.take(k + 1) =~= s.take(k) + seq![s[k]]);
    lemma_byte_len_concat(s.take(k), seq![s[k]]);
    lemma_encode_char_len(s[k]);
}

/// Boundary offsets grow with the number of characters before them.
pub proof fn lemma_byte_len_take_mono(s: Seq<char>, j: int, k: int)
    requires
        0 <= j < k <= s.len(),
    ensures
        byte_len(s.take(j)) < byte_len(s.take(k)),
    decreases k - j,
{
    lemma_byte_len_take_step(s, k - 1);
    if j < k - 1 {
        lemma_byte_len_take_mono(s, j, k - 1);
    }
}

/// At a boundary, `char_index` gives the one character count that ends
/// there.
pub proof fn lemma_char_index(s: Seq<char>, p: int)
    requires
        is_boundary(s, p),
    ensures
        0 <= char_index(s, p) <= s.len(),
        byte_len(s.take(char_index(s, p))) == p,
        forall|k: int| 0 <= k <= s.len() && #[trigger] byte_len(s.take(k)) == p ==> k
            == char_index(s, p),
{
    let c = char_index(s, p);
    assert forall|k: int| 0 <= k <= s.len() && #[trigger] byte_len(s.take(k)) == p implies k
        == c by {
        if k < c {
            lemma_byte_len_take_mono(s, k, c);
        } else if c < k {
            lemma_byte_len_take_mono(s, c, k);
        }
    }
}




/// Inserts `c` at byte offset `idx` of `s` (`String::insert`).
#[verifier::external_body]
pub(crate) fn string_insert(s: &mut String, idx: usize, c: char)
    requires
        is_boundary(old(s)@, idx as int),
    ensures
        final(s)@ == old(s)@.insert(char_index(old(s)@, idx as int), c),
{
    s.insert(idx, c);
}

/// Removes the character that starts at byte offset `idx` of `s` and
/// returns it (`String::remove`).
#[verifier::external_body]
pub(crate) fn string_remove(s: &mut String, idx: usize) -> (c: char)
    requires
        is_boundary(old(s)@, idx as int),
        idx < byte_len(old(s)@),
    ensures
        c == old(s)@[char_index(old(s)@, idx as int)],
        final(s)@ == old(s)@.remove(char_index(old(s)@, idx as int)),
{
    s.remove(idx)
}

/// Length in bytes of `s` (`str::len`).
pub fn str_byte_len(s: &str) -> (n: usize)
    requires
        byte_len(s@) <= usize::MAX,
    ensures
        n == byte_len(s@),
{
    s.len()
}

/// Equality of two string slices.
pub fn str_eq(a: &str, b: &str) -> (r: bool)
    ensures
        r == (a@ == b@),
{
    let n = a.unicode_len();
    if n != b.unicode_len() {
        assert(a@.len() != b@.len());
        return false;
    }
    let mut i: usize = 0;
    while i < n
        invariant
            n == a@.len(),
            n == b@.len(),
            i <= n,
            forall|j: int| 0 <= j < i ==> a@[j] == b@[j],
        decreases n - i,
    {
        if a.get_char(i) != b.get_char(i) {
            return false;
        }
        i = i + 1;
    }
    assert(a@ =~= b@);
    true
}

// ---------------------------------------------------------------------
// Lexicographic order
// ---------------------------------------------------------------------

/// `a` sorts before or equal to `b`, character by character by code
/// point, a proper prefix first. This is the order of `String`'s `Ord`,
/// since UTF-8 keeps the order of code points.
pub open spec fn lex_le(a: Seq<char>, b: Seq<char>) -> bool
    decreases a.len(),
{
    if a.len() == 0 {
        true
    } else if b.len() == 0 {
        false
    } else if a[0] != b[0] {
        (a[0] as u32) < (b[0] as u32)
    } else {
        lex_le(a.drop_first(), b.drop_first())
    }
}

/// Any two strings are ordered one way or the other.
pub proof fn lemma_lex_total(a: Seq<char>, b: Seq<char>)
    ensures
        lex_le(a, b) || lex_le(b, a),
    decreases a.len(),
{
    if a.len() > 0 && b.len() > 0 && a[0] == b[0] {
        lemma_lex_total(a.drop_first(), b.drop_first());
    } else if a.len() > 0 && b.len() > 0 {
        vstd::utf8::char_u32_cast(a[0], a[0] as u32);
        vstd::utf8::char_u32_cast(b[0], b[0] as u32);
    }
}

/// The order is transitive.
pub proof fn lemma_lex_trans(a: Seq<char>, b: Seq<char>, c: Seq<char>)
    requires
        lex_le(a, b),
        lex_le(b, c),
    ensures
        lex_le(a, c),
    decreases a.len(),
{
    if a.len() > 0 && b.len() > 0 && c.len() > 0 && a[0] == b[0] && b[0] == c[0] {
        lemma_lex_trans(a.drop_first(), b.drop_first(), c.drop_first());
    } else if a.len() > 0 && b.len() > 0 && c.len() > 0 {
        vstd::utf8::char_u32_cast(a[0], a[0] as u32);
        vstd::utf8::char_u32_cast(b[0], b[0] as u32);
        vstd::utf8::char_u32_cast(c[0], c[0] as u32);
    }
}

proof fn lemma_lex_le_suffix(a: Seq<char>, b: Seq<char>, i: int)
    requires
        0 <= i <= a.len(),
        i <= b.len(),
        a.take(i) == b.take(i),
    ensures
        lex_le(a, b) == lex_le(a.skip(i), b.skip(i)),
    decreases i,
{
    if i > 0 {
        assert(a[0] == a.take(i)[0]);
        assert(b[0] == b.take(i)[0]);
        assert(a.drop_first().take(i - 1) =~= a.take(i).drop_first());
        assert(b.drop_first().take(i - 1) =~= b.take(i).drop_first());
        lemma_lex_le_suffix(a.drop_first(), b.drop_first(), i - 1);
        assert(a.drop_first().skip(i - 1) =~= a.skip(i));
        assert(b.drop_first().skip(i - 1) =~= b.skip(i));
    } else {
        assert(a.skip(0) =~= a);
        assert(b.skip(0) =~= b);
    }
}

/// Whether `a` sorts before or equal to `b`.
pub fn str_lex_le(a: &str, b: &str) -> (r: bool)
    ensures
        r == lex_le(a@, b@),
{
    let na = a.unicode_len();
    let nb = b.unicode_len();
    let mut i: usize = 0;
    while i < na && i < nb
        invariant
            na == a@.len(),
            nb == b@.len(),
            i <= na,
            i <= nb,
            a@.take(i as int) == b@.take(i as int),
        decreases na - i,
    {
        let ca = a.get_char(i);
        let cb = b.get_char(i);
        if ca != cb {
            proof {
                lemma_lex_le_suffix(a@, b@, i as int);
                assert(a@.skip(i as int)[0] == ca);
                assert(b@.skip(i as int)[0] == cb);
            }
            return (ca as u32) < (cb as u32);
        }
        proof {
            assert(a@.take(i + 1) =~= a@.take(i as int).push(ca));
            assert(b@.take(i + 1) =~= b@.take(i as int).push(cb));
        }
        i = i + 1;
    }
    proof {
        lemma_lex_le_suffix(a@, b@, i as int);
    }
    i == na
}

// ---------------------------------------------------------------------
// Byte decoding
// ---------------------------------------------------------------------

/// The text `String::from_utf8_lossy` makes of `bytes`: invalid sequences
/// become U+FFFD.
pub uninterp spec fn utf8_lossy(bytes: Seq<u8>) -> Seq<char>;

/// Decodes bytes as UTF-8, replacing invalid sequences
/// (`String::from_utf8_lossy`). Valid UTF-8 decodes as such.
#[verifier::external_body]
pub(crate) fn decode_lossy(bytes: &[u8]) -> (s: String)
    ensures
        s@ == utf8_lossy(bytes@),
        valid_utf8(bytes@) ==> s@ == decode_utf8(bytes@),
{
    String::from_utf8_lossy(bytes).to_string()
}

// ---------------------------------------------------------------------
// Paths
// ---------------------------------------------------------------------

/// The text of `base` joined with `comp` the way `PathBuf::join` does on
/// Unix: an absolute `comp` replaces the base; otherwise a '/' goes in
/// between unless the base is empty or already ends with one.
pub open spec fn join_path_spec(base: Seq<char>, comp: Seq<char>) -> Seq<char> {
    if comp.len() > 0 && comp[0] == '/' {
        comp
    } else if base.len() == 0 {
        comp
    } else if base.last() == '/' {
        base + comp
    } else {
        base + seq!['/'] + comp
    }
}

/// Joins a path component onto a base path.
pub fn join_path(base: &str, comp: &str) -> (r: String)
    ensures
        r@ == join_path_spec(base@, comp@),
{
    let nb = base.unicode_len();
    let nc = comp.unicode_len();
    if nc > 0 && comp.get_char(0) == '/' {
        return String::from_str(comp);
    }
    if nb == 0 {
        return String::from_str(comp);
    }
    let mut r = String::from_str(base);
    if base.get_char(nb - 1) != '/' {
        push_char(&mut r, '/');
    }
    r.append(comp);
    r
}

/// The concatenation of two strings.
pub fn concat_str(a: &str, b: &str) -> (r: String)
    ensures
        r@ == a@ + b@,
{
    let mut r = String::from_str(a);
    r.append(b);
    r
}

// ---------------------------------------------------------------------
// Sequences
// ---------------------------------------------------------------------

/// The texts of a list of strings.
pub open spec fn views(v: Seq<String>) -> Seq<Seq<char>> {
    v.map_values(|s: String| s@)
}

/// Pushing a string pushes its text.
pub proof fn lemma_views_push(v: Seq<String>, x: String)
    ensures
        views(v.push(x)) == views(v).push(x@),
{
    assert(views(v.push(x)) =~= views(v).push(x@));
}

/// Inserting an element adds it to the multiset of elements.
pub proof fn lemma_insert_to_multiset<A>(s: Seq<A>, i: int, x: A)
    requires
        0 <= i <= s.len(),
    ensures
        s.insert(i, x).to_multiset() =~= s.to_multiset().insert(x),
{
    broadcast use vstd::seq_lib::group_to_multiset_ensures;
    broadcast use vstd::multiset::group_multiset_axioms;
    let t = s.insert(i, x);
    assert(t.remove(i) =~= s);
    assert(t[i] == x);
    assert(t.to_multiset().count(x) > 0) by {
        assert(t.contains(x));
    }
    assert forall|y: A| #[trigger] t.to_multiset().count(y) == s.to_multiset().insert(x).count(y) by {}
}


} // verus!
