//! RGBA colors: packing, hex rendering, and the color-string parser theme
//! files rely on (`#rgb`, `#rrggbb`, `#rrggbbaa`, `rgb(..)`, `rgba(..)`).

use vstd::prelude::*;

use crate::decimal::{ascii_lower, alpha_from, alpha_of, channel_from, channel_of, float_literal, scan_float};
use crate::text::{chars_of, is_ws, push_char, trim, trim_bounds, trim_end, trim_start};

verus! {

/// A RGBA color with 8 bits per channel.
#[derive(Clone, Copy, PartialEq, Eq, Debug, Hash, Structural)]
pub struct Rgba {
    pub r: u8,
    pub g: u8,
    pub b: u8,
    pub a: u8,
}

impl Default for Rgba {
    /// Transparent black, every channel zero.
    fn default() -> (c: Rgba)
        ensures
            c == (Rgba { r: 0, g: 0, b: 0, a: 0 }),
    {
        Rgba { r: 0, g: 0, b: 0, a: 0 }
    }
}

/// `0xRRGGBBAA` as a number.
pub open spec fn packed(c: Rgba) -> int {
    c.r * 0x1000000 + c.g * 0x10000 + c.b * 0x100 + c.a
}

/// The color a packed `0xRRGGBBAA` word denotes.
pub open spec fn unpacked(v: u32) -> Rgba {
    Rgba {
        r: (v / 0x1000000) as u8,
        g: ((v / 0x10000) % 0x100) as u8,
        b: ((v / 0x100) % 0x100) as u8,
        a: (v % 0x100) as u8,
    }
}

/// Lowercase hex digit for `0 <= n < 16`.
pub open spec fn hex_digit(n: int) -> char {
    if n < 10 {
        (48 + n) as char
    } else {
        (87 + n) as char
    }
}

/// The two lowercase hex digits of a byte.
pub open spec fn hex_pair(x: u8) -> Seq<char> {
    seq![hex_digit((x / 16) as int), hex_digit((x % 16) as int)]
}

/// `#rrggbb`, lowercase.
pub open spec fn hex6(c: Rgba) -> Seq<char> {
    seq!['#'] + hex_pair(c.r) + hex_pair(c.g) + hex_pair(c.b)
}

/// `#rrggbbaa`, lowercase.
pub open spec fn hex8(c: Rgba) -> Seq<char> {
    hex6(c) + hex_pair(c.a)
}

pub open spec fn is_hex(c: char) -> bool {
    ('0' <= c && c <= '9') || ('a' <= c && c <= 'f') || ('A' <= c && c <= 'F')
}

/// The value of a hex digit (either case).
pub open spec fn hex_val(c: char) -> int {
    if '0' <= c && c <= '9' {
        c as int - 48
    } else if 'a' <= c && c <= 'f' {
        c as int - 87
    } else {
        c as int - 55
    }
}

pub open spec fn all_hex(h: Seq<char>) -> bool {
    forall|i: int| 0 <= i < h.len() ==> is_hex(#[trigger] h[i])
}

pub open spec fn hex_byte(h: Seq<char>, i: int) -> u8 {
    (hex_val(h[i]) * 16 + hex_val(h[i + 1])) as u8
}

pub open spec fn hex_single(h: Seq<char>, i: int) -> u8 {
    (hex_val(h[i]) * 17) as u8
}

/// The body of a `#...` color: 3, 6 or 8 hex digits.
pub open spec fn parse_hex_body(h: Seq<char>) -> Option<Rgba> {
    if !all_hex(h) {
        None
    } else if h.len() == 3 {
        Some(Rgba { r: hex_single(h, 0), g: hex_single(h, 1), b: hex_single(h, 2), a: 255 })
    } else if h.len() == 6 {
        Some(Rgba { r: hex_byte(h, 0), g: hex_byte(h, 2), b: hex_byte(h, 4), a: 255 })
    } else if h.len() == 8 {
        Some(Rgba { r: hex_byte(h, 0), g: hex_byte(h, 2), b: hex_byte(h, 4), a: hex_byte(h, 6) })
    } else {
        None
    }
}

pub open spec fn is_arg_sep(c: char) -> bool {
    c == ',' || c == ' '
}

/// Split on ',' and ' ', dropping empty pieces; `cur` is the piece under way.
pub open spec fn fields_from(s: Seq<char>, cur: Seq<char>) -> Seq<Seq<char>>
    decreases s.len(),
{
    let done = if cur.len() == 0 {
        Seq::<Seq<char>>::empty()
    } else {
        seq![cur]
    };
    if s.len() == 0 {
        done
    } else if is_arg_sep(s[0]) {
        done + fields_from(s.drop_first(), Seq::<char>::empty())
    } else {
        fields_from(s.drop_first(), cur.push(s[0]))
    }
}

/// The non-empty pieces of `s` between ',' and ' ' separators.
pub open spec fn arg_fields(s: Seq<char>) -> Seq<Seq<char>> {
    fields_from(s, Seq::<char>::empty())
}

/// The argument list of `rgb(..)` / `rgba(..)`, from after the '(' on.
pub open spec fn parse_rgb_args(rest: Seq<char>) -> Option<Rgba> {
    if rest.len() == 0 || rest.last() != ')' {
        None
    } else {
        let parts = arg_fields(rest.drop_last());
        if parts.len() < 3 {
            None
        } else if float_literal(parts[0]) is None || float_literal(parts[1]) is None
            || float_literal(parts[2]) is None {
            None
        } else if parts.len() > 3 && float_literal(parts[3]) is None {
            None
        } else {
            Some(
                Rgba {
                    r: channel_of(float_literal(parts[0])->0),
                    g: channel_of(float_literal(parts[1])->0),
                    b: channel_of(float_literal(parts[2])->0),
                    a: if parts.len() > 3 {
                        alpha_of(float_literal(parts[3])->0)
                    } else {
                        255
                    },
                },
            )
        }
    }
}

pub open spec fn starts_with(s: Seq<char>, p: Seq<char>) -> bool {
    s.len() >= p.len() && s.subrange(0, p.len() as int) == p
}

/// What `Rgba::parse` accepts, and the color it yields.
pub open spec fn parse_color(s: Seq<char>) -> Option<Rgba> {
    let t = trim(s);
    if t.len() > 0 && t[0] == '#' {
        parse_hex_body(t.drop_first())
    } else if starts_with(t, seq!['r', 'g', 'b', '(']) {
        parse_rgb_args(t.subrange(4, t.len() as int))
    } else if starts_with(t, seq!['r', 'g', 'b', 'a', '(']) {
        parse_rgb_args(t.subrange(5, t.len() as int))
    } else {
        None
    }
}

/// One channel of `s` blended toward `d` by `num/den`, rounded half up:
/// `floor(s * (1 - a) + d * a + 1/2)` with `a = num / den`.
pub open spec fn mix_channel(s: u8, d: u8, num: int, den: int) -> int {
    (2 * s * (den - num) + 2 * d * num + den) / (2 * den)
}

fn hex_digit_char(n: u8) -> (c: char)
    requires
        n < 16,
    ensures
        c == hex_digit(n as int),
{
    if n < 10 {
        ((48 + n) as u8) as char
    } else {
        ((87 + n) as u8) as char
    }
}

fn push_hex_pair(s: &mut String, x: u8)
    ensures
        final(s)@ == old(s)@ + hex_pair(x),
{
    push_char(s, hex_digit_char(x / 16));
    push_char(s, hex_digit_char(x % 16));
    proof {
        assert(final(s)@ =~= old(s)@ + hex_pair(x));
    }
}

fn hex_value(c: char) -> (r: u8)
    requires
        is_hex(c),
    ensures
        r == hex_val(c),
        r < 16,
{
    if '0' <= c && c <= '9' {
        ((c as u32) - 48) as u8
    } else if 'a' <= c && c <= 'f' {
        ((c as u32) - 87) as u8
    } else {
        ((c as u32) - 55) as u8
    }
}

fn is_hex_char(c: char) -> (r: bool)
    ensures
        r == is_hex(c),
{
    ('0' <= c && c <= '9') || ('a' <= c && c <= 'f') || ('A' <= c && c <= 'F')
}

/// `parse_hex_body(v[lo..hi])`.
fn parse_hex_chars(v: &Vec<char>, lo: usize, hi: usize) -> (r: Option<Rgba>)
    requires
        lo <= hi <= v@.len(),
    ensures
        r == parse_hex_body(v@.subrange(lo as int, hi as int)),
{
    let ghost h = v@.subrange(lo as int, hi as int);
    let n = hi - lo;
    if n != 3 && n != 6 && n != 8 {
        return None;
    }
    let mut i = lo;
    while i < hi
        invariant
            lo <= i <= hi <= v@.len(),
            h == v@.subrange(lo as int, hi as int),
            forall|j: int| 0 <= j < i - lo ==> is_hex(#[trigger] h[j]),
        decreases hi - i,
    {
        if !is_hex_char(v[i]) {
            proof {
                assert(h[i - lo] == v@[i as int]);
            }
            return None;
        }
        proof {
            assert(h[i - lo] == v@[i as int]);
        }
        i += 1;
    }
    proof {
        assert(all_hex(h));
        assert forall|j: int| 0 <= j < h.len() implies h[j] == v@[lo + j] by {}
    }
    if n == 3 {
        Some(
            Rgba {
                r: hex_value(v[lo]) * 17,
                g: hex_value(v[lo + 1]) * 17,
                b: hex_value(v[lo + 2]) * 17,
                a: 255,
            },
        )
    } else {
        let r = hex_value(v[lo]) * 16 + hex_value(v[lo + 1]);
        let g = hex_value(v[lo + 2]) * 16 + hex_value(v[lo + 3]);
        let b = hex_value(v[lo + 4]) * 16 + hex_value(v[lo + 5]);
        let a = if n == 8 {
            hex_value(v[lo + 6]) * 16 + hex_value(v[lo + 7])
        } else {
            255
        };
        Some(Rgba { r, g, b, a })
    }
}

pub open spec fn ranges_view(v: Seq<char>, rs: Seq<(usize, usize)>) -> Seq<Seq<char>> {
    rs.map_values(|p: (usize, usize)| v.subrange(p.0 as int, p.1 as int))
}

proof fn lemma_fields_done(s: Seq<char>, cur: Seq<char>)
    requires
        s.len() == 0,
    ensures
        fields_from(s, cur) == (if cur.len() == 0 {
            Seq::<Seq<char>>::empty()
        } else {
            seq![cur]
        }),
{
}

/// The ranges of `arg_fields(v[lo..hi])`, at most the first `limit` of them.
fn arg_field_ranges(v: &Vec<char>, lo: usize, hi: usize, limit: usize) -> (out: Vec<(usize, usize)>)
    requires
        lo <= hi <= v@.len(),
    ensures
        out@.len() <= limit,
        out@.len() <= arg_fields(v@.subrange(lo as int, hi as int)).len(),
        out@.len() == limit || out@.len() == arg_fields(v@.subrange(lo as int, hi as int)).len(),
        forall|k: int|
            0 <= k < out@.len() ==> lo <= (#[trigger] out@[k]).0 <= out@[k].1 <= hi && v@.subrange(
                out@[k].0 as int,
                out@[k].1 as int,
            ) == arg_fields(v@.subrange(lo as int, hi as int))[k],
{
    let ghost whole = arg_fields(v@.subrange(lo as int, hi as int));
    let mut out: Vec<(usize, usize)> = Vec::new();
    let mut start = lo;
    let mut i = lo;
    proof {
        assert(ranges_view(v@, out@) =~= Seq::<Seq<char>>::empty());
        assert(v@.subrange(lo as int, lo as int) =~= Seq::<char>::empty());
        assert(ranges_view(v@, out@) + fields_from(
            v@.subrange(i as int, hi as int),
            v@.subrange(start as int, i as int),
        ) =~= whole);
    }
    while i < hi
        invariant
            lo <= start <= i <= hi <= v@.len(),
            whole == arg_fields(v@.subrange(lo as int, hi as int)),
            out@.len() <= limit,
            forall|k: int|
                0 <= k < out@.len() ==> lo <= (#[trigger] out@[k]).0 <= out@[k].1 <= hi,
            ranges_view(v@, out@) + fields_from(
                v@.subrange(i as int, hi as int),
                v@.subrange(start as int, i as int),
            ) == whole,
        decreases hi - i,
    {
        let ghost s = v@.subrange(i as int, hi as int);
        let ghost cur = v@.subrange(start as int, i as int);
        proof {
            assert(s[0] == v@[i as int]);
            assert(s.drop_first() =~= v@.subrange(i + 1, hi as int));
        }
        if v[i] == ',' || v[i] == ' ' {
            if i > start {
                if out.len() == limit {
                    proof {
                        // the prefix already holds `limit` fields
                        assert(whole.len() >= out@.len());
                    }
                    return out;
                }
                let ghost old_out = out@;
                out.push((start, i));
                proof {
                    assert(ranges_view(v@, out@) =~= ranges_view(v@, old_out) + seq![cur]);
                    assert(v@.subrange(i + 1, i + 1) =~= Seq::<char>::empty());
                }
            } else {
                proof {
                    assert(cur =~= Seq::<char>::empty());
                    assert(v@.subrange(i + 1, i + 1) =~= Seq::<char>::empty());
                    assert(ranges_view(v@, out@) + Seq::<Seq<char>>::empty() =~= ranges_view(v@, out@));
                }
            }
            i += 1;
            start = i;
        } else {
            proof {
                assert(cur.push(s[0]) =~= v@.subrange(start as int, i + 1));
            }
            i += 1;
        }
        proof {
            assert(ranges_view(v@, out@) + fields_from(
                v@.subrange(i as int, hi as int),
                v@.subrange(start as int, i as int),
            ) =~= whole);
        }
    }
    proof {
        let cur = v@.subrange(start as int, hi as int);
        assert(v@.subrange(hi as int, hi as int) =~= Seq::<char>::empty());
        lemma_fields_done(v@.subrange(hi as int, hi as int), cur);
    }
    if hi > start {
        if out.len() < limit {
            let ghost old_out = out@;
            out.push((start, hi));
            proof {
                assert(ranges_view(v@, out@) =~= ranges_view(v@, old_out) + seq![
                    v@.subrange(start as int, hi as int),
                ]);
                assert(ranges_view(v@, out@) =~= whole);
            }
        } else {
            proof {
                assert(whole.len() >= out@.len());
            }
        }
    } else {
        proof {
            assert(ranges_view(v@, out@) =~= whole);
        }
    }
    proof {
        assert forall|k: int| 0 <= k < out@.len() implies v@.subrange(
            (#[trigger] out@[k]).0 as int,
            out@[k].1 as int,
        ) == whole[k] by {
            assert(ranges_view(v@, out@)[k] == v@.subrange(out@[k].0 as int, out@[k].1 as int));
        }
    }
    out
}

/// `parse_rgb_args(v[lo..hi])`.
fn parse_rgb_chars(v: &Vec<char>, lo: usize, hi: usize) -> (r: Option<Rgba>)
    requires
        lo <= hi <= v@.len(),
    ensures
        r == parse_rgb_args(v@.subrange(lo as int, hi as int)),
{
    let ghost rest = v@.subrange(lo as int, hi as int);
    if hi == lo || v[hi - 1] != ')' {
        proof {
            if hi > lo {
                assert(rest.last() == v@[hi - 1]);
            }
        }
        return None;
    }
    proof {
        assert(rest.last() == v@[hi - 1]);
        assert(rest.drop_last() =~= v@.subrange(lo as int, hi - 1));
    }
    let ghost parts = arg_fields(v@.subrange(lo as int, hi - 1));
    let fs = arg_field_ranges(v, lo, hi - 1, 4);
    if fs.len() < 3 {
        return None;
    }
    let (a0, b0) = fs[0];
    let (a1, b1) = fs[1];
    let (a2, b2) = fs[2];
    proof {
        assert(v@.subrange(a0 as int, b0 as int) == parts[0]);
        assert(v@.subrange(a1 as int, b1 as int) == parts[1]);
        assert(v@.subrange(a2 as int, b2 as int) == parts[2]);
        assert(fs@.len() > 3 <==> parts.len() > 3);
    }
    let x0 = scan_float(v, a0, b0);
    let x1 = scan_float(v, a1, b1);
    let x2 = scan_float(v, a2, b2);
    if x0.is_none() || x1.is_none() || x2.is_none() {
        return None;
    }
    let x0 = x0.unwrap();
    let x1 = x1.unwrap();
    let x2 = x2.unwrap();
    let mut alpha: u8 = 255;
    if fs.len() > 3 {
        let (a3, b3) = fs[3];
        proof {
            assert(v@.subrange(a3 as int, b3 as int) == parts[3]);
        }
        match scan_float(v, a3, b3) {
            None => {
                return None;
            },
            Some(x3) => {
                alpha = alpha_from(&x3, Ghost(float_literal(parts[3])->0));
            },
        }
    } else {
        proof {
            assert(parts.len() == 3);
        }
    }
    let r = channel_from(&x0, Ghost(float_literal(parts[0])->0));
    let g = channel_from(&x1, Ghost(float_literal(parts[1])->0));
    let b = channel_from(&x2, Ghost(float_literal(parts[2])->0));
    Some(Rgba { r, g, b, a: alpha })
}

/// `v[lo..hi]` begins with `p`.
fn has_prefix(v: &Vec<char>, lo: usize, hi: usize, p: &Vec<char>) -> (r: bool)
    requires
        lo <= hi <= v@.len(),
    ensures
        r == starts_with(v@.subrange(lo as int, hi as int), p@),
{
    let ghost s = v@.subrange(lo as int, hi as int);
    if hi - lo < p.len() {
        return false;
    }
    let mut i: usize = 0;
    while i < p.len()
        invariant
            lo + p@.len() <= hi <= v@.len(),
            s == v@.subrange(lo as int, hi as int),
            0 <= i <= p@.len(),
            forall|j: int| 0 <= j < i ==> v@[lo + j] == p@[j],
        decreases p@.len() - i,
    {
        if v[lo + i] != p[i] {
            proof {
                assert(s.subrange(0, p@.len() as int)[i as int] == v@[lo + i]);
            }
            return false;
        }
        i += 1;
    }
    proof {
        assert(s.subrange(0, p@.len() as int) =~= p@);
    }
    true
}

/// `parse_color(v[lo..hi])`.
pub fn parse_chars(v: &Vec<char>, lo: usize, hi: usize) -> (r: Option<Rgba>)
    requires
        lo <= hi <= v@.len(),
    ensures
        r == parse_color(v@.subrange(lo as int, hi as int)),
{
    let (a, b) = trim_bounds(v, lo, hi);
    let ghost t = v@.subrange(a as int, b as int);
    if a < b && v[a] == '#' {
        proof {
            assert(t[0] == v@[a as int]);
            assert(t.drop_first() =~= v@.subrange(a + 1, b as int));
        }
        return parse_hex_chars(v, a + 1, b);
    }
    proof {
        if a < b {
            assert(t[0] == v@[a as int]);
        }
    }
    if has_prefix(v, a, b, &vec!['r', 'g', 'b', '(']) {
        proof {
            assert(t.subrange(4, t.len() as int) =~= v@.subrange(a + 4, b as int));
        }
        return parse_rgb_chars(v, a + 4, b);
    }
    if has_prefix(v, a, b, &vec!['r', 'g', 'b', 'a', '(']) {
        proof {
            assert(t.subrange(5, t.len() as int) =~= v@.subrange(a + 5, b as int));
        }
        return parse_rgb_chars(v, a + 5, b);
    }
    None
}

impl Rgba {
    /// Opaque black.
    pub fn black() -> (c: Rgba)
        ensures
            c == (Rgba { r: 0, g: 0, b: 0, a: 255 }),
    {
        Rgba { r: 0, g: 0, b: 0, a: 255 }
    }

    /// Opaque white.
    pub fn white() -> (c: Rgba)
        ensures
            c == (Rgba { r: 255, g: 255, b: 255, a: 255 }),
    {
        Rgba { r: 255, g: 255, b: 255, a: 255 }
    }

    /// Fully transparent black.
    pub fn transparent() -> (c: Rgba)
        ensures
            c == (Rgba { r: 0, g: 0, b: 0, a: 0 }),
    {
        Rgba { r: 0, g: 0, b: 0, a: 0 }
    }

    /// `0xRRGGBBAA` — the packing shared by the C ABI struct, ImNodes, and
    /// raylib's `Color`.
    pub fn to_u32(self) -> (v: u32)
        ensures
            v == packed(self),
    {
        let r = self.r as u32;
        let g = self.g as u32;
        let b = self.b as u32;
        let a = self.a as u32;
        let v = (r << 24) | (g << 16) | (b << 8) | a;
        assert(v == r * 0x1000000 + g * 0x10000 + b * 0x100 + a) by (bit_vector)
            requires
                r < 256,
                g < 256,
                b < 256,
                a < 256,
                v == (r << 24) | (g << 16) | (b << 8) | a,
        ;
        v
    }

    /// The color of a packed `0xRRGGBBAA` word.
    pub fn from_u32(v: u32) -> (c: Rgba)
        ensures
            c == unpacked(v),
    {
        let r = (v >> 24) as u8;
        let g = (v >> 16) as u8;
        let b = (v >> 8) as u8;
        let a = v as u8;
        assert(r == v / 0x1000000 && g == (v / 0x10000) % 0x100 && b == (v / 0x100) % 0x100 && a
            == v % 0x100) by (bit_vector)
            requires
                r == (v >> 24) as u8,
                g == (v >> 16) as u8,
                b == (v >> 8) as u8,
                a == v as u8,
        ;
        Rgba { r, g, b, a }
    }

    /// `#rrggbb` (alpha ignored), lowercase — the representation Omarchy's
    /// own resolver and templates use on disk.
    pub fn to_hex(self) -> (s: String)
        ensures
            s@ == hex6(self),
    {
        let mut s = String::new();
        push_char(&mut s, '#');
        push_hex_pair(&mut s, self.r);
        push_hex_pair(&mut s, self.g);
        push_hex_pair(&mut s, self.b);
        proof {
            assert(s@ =~= hex6(self));
        }
        s
    }

    /// `#rrggbbaa` (alpha included), lowercase.
    pub fn to_hex8(self) -> (s: String)
        ensures
            s@ == hex8(self),
    {
        let mut s = self.to_hex();
        push_hex_pair(&mut s, self.a);
        s
    }

    /// Parse `#rgb`, `#rrggbb`, or `#rrggbbaa`. Also accepts `rgb()` /
    /// `rgba()` decimal triplets as used by some theme files.
    pub fn parse(s: &str) -> (r: Option<Rgba>)
        ensures
            r == parse_color(s@),
    {
        let v = chars_of(s);
        proof {
            assert(v@.subrange(0, v@.len() as int) =~= v@);
        }
        parse_chars(&v, 0, v.len())
    }

    /// Sum-of-channels luminance used by Omarchy for light/dark
    /// auto-detection: `r + g + b > 382` means light.
    pub fn omarchy_luminance(self) -> (l: u32)
        ensures
            l == self.r + self.g + self.b,
    {
        self.r as u32 + self.g as u32 + self.b as u32
    }

    pub fn is_light_by_omarchy(self) -> (light: bool)
        ensures
            light == (self.r + self.g + self.b > 382),
    {
        self.omarchy_luminance() > 382
    }

    /// Linear blend toward `other` by the fraction `num / den`, rounded half
    /// up per channel (the `mix` template helper at an exact fraction).
    pub fn mix_fraction(self, other: Rgba, num: u32, den: u32) -> (c: Rgba)
        requires
            0 < den <= 1000,
            num <= den,
        ensures
            c.r == mix_channel(self.r, other.r, num as int, den as int),
            c.g == mix_channel(self.g, other.g, num as int, den as int),
            c.b == mix_channel(self.b, other.b, num as int, den as int),
            c.a == mix_channel(self.a, other.a, num as int, den as int),
    {
        Rgba {
            r: mix_byte(self.r, other.r, num, den),
            g: mix_byte(self.g, other.g, num, den),
            b: mix_byte(self.b, other.b, num, den),
            a: mix_byte(self.a, other.a, num, den),
        }
    }
}

fn mix_byte(s: u8, d: u8, num: u32, den: u32) -> (r: u8)
    requires
        0 < den <= 1000,
        num <= den,
    ensures
        r == mix_channel(s, d, num as int, den as int),
{
    let s = s as u64;
    let d = d as u64;
    let num = num as u64;
    let den = den as u64;
    assert(2 * s * (den - num) + 2 * d * num <= 510 * den) by (nonlinear_arith)
        requires
            s <= 255,
            d <= 255,
            num <= den,
    ;
    let t = 2 * s * (den - num) + 2 * d * num + den;
    let q = t / (2 * den);
    proof {
        vstd::arithmetic::div_mod::lemma_div_is_ordered(t as int, 511 * den as int, 2 * den as int);
        vstd::arithmetic::div_mod::lemma_fundamental_div_mod_converse(
            511 * den as int,
            2 * den as int,
            255,
            den as int,
        );
    }
    q as u8
}

// ---------------------------------------------------------------------------
// Laws
// ---------------------------------------------------------------------------

/// Unpacking a packed color gives the color back.
pub proof fn law_unpack_packed(c: Rgba)
    ensures
        0 <= packed(c) <= u32::MAX,
        unpacked(packed(c) as u32) == c,
{
    let (r, g, b, a) = (c.r as int, c.g as int, c.b as int, c.a as int);
    let p = packed(c);
    assert(0 <= p <= u32::MAX);
    assert(p / 0x1000000 == r && (p / 0x10000) % 0x100 == g && (p / 0x100) % 0x100 == b && p % 0x100
        == a) by (nonlinear_arith)
        requires
            p == r * 0x1000000 + g * 0x10000 + b * 0x100 + a,
            0 <= r < 256,
            0 <= g < 256,
            0 <= b < 256,
            0 <= a < 256,
    ;
}

/// Packing an unpacked word gives the word back.
pub proof fn law_pack_unpacked(v: u32)
    ensures
        packed(unpacked(v)) == v,
{
    let x = v as int;
    assert((x / 0x1000000) * 0x1000000 + ((x / 0x10000) % 0x100) * 0x10000 + ((x / 0x100) % 0x100)
        * 0x100 + x % 0x100 == x && x / 0x1000000 < 256) by (nonlinear_arith)
        requires
            0 <= x < 0x1_0000_0000,
    ;
}

proof fn lemma_hex_digit_value(n: int)
    requires
        0 <= n < 16,
    ensures
        is_hex(hex_digit(n)),
        hex_val(hex_digit(n)) == n,
{
}

proof fn lemma_hex_pair_value(x: u8)
    ensures
        is_hex(hex_pair(x)[0]),
        is_hex(hex_pair(x)[1]),
        hex_val(hex_pair(x)[0]) * 16 + hex_val(hex_pair(x)[1]) == x,
{
    lemma_hex_digit_value((x / 16) as int);
    lemma_hex_digit_value((x % 16) as int);
}

proof fn lemma_trim_plain(s: Seq<char>)
    requires
        s.len() > 0,
        !is_ws(s[0]),
        !is_ws(s.last()),
    ensures
        trim(s) == s,
{
}

proof fn lemma_hex_body(h: Seq<char>, c: Rgba)
    requires
        h.len() >= 6,
        h.subrange(0, 6) == hex_pair(c.r) + hex_pair(c.g) + hex_pair(c.b),
    ensures
        forall|i: int| 0 <= i < 6 ==> is_hex(#[trigger] h[i]),
        hex_byte(h, 0) == c.r,
        hex_byte(h, 2) == c.g,
        hex_byte(h, 4) == c.b,
{
    lemma_hex_pair_value(c.r);
    lemma_hex_pair_value(c.g);
    lemma_hex_pair_value(c.b);
    assert(h[0] == h.subrange(0, 6)[0]);
    assert(h[1] == h.subrange(0, 6)[1]);
    assert(h[2] == h.subrange(0, 6)[2]);
    assert(h[3] == h.subrange(0, 6)[3]);
    assert(h[4] == h.subrange(0, 6)[4]);
    assert(h[5] == h.subrange(0, 6)[5]);
}

/// `to_hex8` text parses back to the same color.
pub proof fn law_parse_hex8(c: Rgba)
    ensures
        parse_color(hex8(c)) == Some(c),
{
    let s = hex8(c);
    lemma_hex_pair_value(c.a);
    lemma_hex_pair_value(c.b);
    lemma_hex_digit_value((c.a % 16) as int);
    assert(s[0] == '#');
    assert(s.last() == hex_pair(c.a)[1]);
    lemma_trim_plain(s);
    let h = s.drop_first();
    assert(h.subrange(0, 6) =~= hex_pair(c.r) + hex_pair(c.g) + hex_pair(c.b));
    lemma_hex_body(h, c);
    assert(h[6] == hex_pair(c.a)[0]);
    assert(h[7] == hex_pair(c.a)[1]);
    assert(all_hex(h));
}

/// `to_hex` text parses back to the same color, opaque.
pub proof fn law_parse_hex6(c: Rgba)
    ensures
        parse_color(hex6(c)) == Some(Rgba { a: 255, ..c }),
{
    let s = hex6(c);
    lemma_hex_pair_value(c.b);
    lemma_hex_digit_value((c.b % 16) as int);
    assert(s[0] == '#');
    assert(s.last() == hex_pair(c.b)[1]);
    lemma_trim_plain(s);
    let h = s.drop_first();
    assert(h.subrange(0, 6) =~= hex_pair(c.r) + hex_pair(c.g) + hex_pair(c.b));
    lemma_hex_body(h, c);
    assert(all_hex(h));
}

/// Blending a color with itself leaves it unchanged, whatever the amount.
pub proof fn law_mix_with_itself(c: Rgba, num: int, den: int)
    requires
        0 < den,
        0 <= num <= den,
    ensures
        mix_channel(c.r, c.r, num, den) == c.r,
        mix_channel(c.g, c.g, num, den) == c.g,
        mix_channel(c.b, c.b, num, den) == c.b,
        mix_channel(c.a, c.a, num, den) == c.a,
{
    lemma_mix_same(c.r, num, den);
    lemma_mix_same(c.g, num, den);
    lemma_mix_same(c.b, num, den);
    lemma_mix_same(c.a, num, den);
}

proof fn lemma_mix_same(x: u8, num: int, den: int)
    requires
        0 < den,
        0 <= num <= den,
    ensures
        mix_channel(x, x, num, den) == x,
{
    let s = x as int;
    assert(2 * s * (den - num) + 2 * s * num + den == s * (2 * den) + den) by (nonlinear_arith);
    assert((s * (2 * den) + den) / (2 * den) == s) by (nonlinear_arith)
        requires
            0 < den,
            0 <= s,
    ;
}

/// Blending by nothing keeps the color; blending all the way gives the
/// other color.
pub proof fn law_mix_ends(s: u8, d: u8, den: int)
    requires
        0 < den,
    ensures
        mix_channel(s, d, 0, den) == s,
        mix_channel(s, d, den, den) == d,
{
    let (a, b) = (s as int, d as int);
    assert((2 * a * den + den) / (2 * den) == a) by (nonlinear_arith)
        requires
            0 < den,
            0 <= a,
    ;
    assert((2 * b * den + den) / (2 * den) == b) by (nonlinear_arith)
        requires
            0 < den,
            0 <= b,
    ;
    assert(2 * a * (den - 0) + 2 * b * 0 + den == 2 * a * den + den) by (nonlinear_arith);
    assert(2 * a * (den - den) + 2 * b * den + den == 2 * b * den + den) by (nonlinear_arith);
}

/// `h` with its ASCII capitals lowercased.
pub open spec fn ascii_lowercase(h: Seq<char>) -> Seq<char> {
    Seq::new(h.len(), |i: int| ascii_lower(h[i]))
}

proof fn lemma_lower_char(c: char)
    ensures
        is_ws(ascii_lower(c)) == is_ws(c),
        is_hex(ascii_lower(c)) == is_hex(c),
        is_hex(c) ==> hex_val(ascii_lower(c)) == hex_val(c),
{
    if 'A' <= c && c <= 'Z' {
        assert(ascii_lower(c) as int == c as int + 32);
    }
}

proof fn lemma_trim_end_after(c: char, h: Seq<char>)
    requires
        !is_ws(c),
    ensures
        trim_end(seq![c] + h) == seq![c] + trim_end(h),
    decreases h.len(),
{
    let s = seq![c] + h;
    if h.len() > 0 && is_ws(h.last()) {
        assert(s.last() == h.last());
        assert(s.drop_last() =~= seq![c] + h.drop_last());
        lemma_trim_end_after(c, h.drop_last());
    } else if h.len() > 0 {
        assert(s.last() == h.last());
    } else {
        assert(s.last() == c);
    }
}

proof fn lemma_trim_end_lower(h: Seq<char>)
    ensures
        trim_end(ascii_lowercase(h)) == ascii_lowercase(trim_end(h)),
    decreases h.len(),
{
    let l = ascii_lowercase(h);
    if h.len() > 0 {
        lemma_lower_char(h.last());
        assert(l.last() == ascii_lower(h.last()));
        if is_ws(h.last()) {
            assert(l.drop_last() =~= ascii_lowercase(h.drop_last()));
            lemma_trim_end_lower(h.drop_last());
        }
    } else {
        assert(l =~= ascii_lowercase(trim_end(h)));
    }
}

proof fn lemma_hex_body_lower(h: Seq<char>)
    ensures
        parse_hex_body(ascii_lowercase(h)) == parse_hex_body(h),
{
    let l = ascii_lowercase(h);
    assert forall|i: int| 0 <= i < h.len() implies is_hex(#[trigger] l[i]) == is_hex(h[i]) && (is_hex(
        h[i],
    ) ==> hex_val(l[i]) == hex_val(h[i])) by {
        lemma_lower_char(h[i]);
    }
    if all_hex(h) {
        assert(all_hex(l));
    } else {
        let i = choose|i: int| 0 <= i < h.len() && !is_hex(#[trigger] h[i]);
        assert(!is_hex(l[i]));
    }
}

/// Hex colors are read case-insensitively: `#` followed by any text parses
/// to the same result as with its ASCII letters lowercased.
pub proof fn law_hex_case_insensitive(h: Seq<char>)
    ensures
        parse_color(seq!['#'] + h) == parse_color(seq!['#'] + ascii_lowercase(h)),
{
    let s = seq!['#'] + h;
    let sl = seq!['#'] + ascii_lowercase(h);
    assert(trim_start(s) == s);
    assert(trim_start(sl) == sl);
    lemma_trim_end_after('#', h);
    lemma_trim_end_after('#', ascii_lowercase(h));
    lemma_trim_end_lower(h);
    assert((seq!['#'] + trim_end(h)).drop_first() =~= trim_end(h));
    assert((seq!['#'] + ascii_lowercase(trim_end(h))).drop_first() =~= ascii_lowercase(trim_end(h)));
    lemma_hex_body_lower(trim_end(h));
}

/// The capitals `A` to `F` are hex digits worth 10 to 15: `#` and three
/// copies of the capital for `n` is the grey whose channels are `17 * n`.
pub proof fn law_uppercase_hex_digits(n: int)
    requires
        10 <= n < 16,
    ensures
        parse_color(seq!['#', (55 + n) as char, (55 + n) as char, (55 + n) as char]) == Some(
            Rgba { r: (17 * n) as u8, g: (17 * n) as u8, b: (17 * n) as u8, a: 255 },
        ),
{
    let d = (55 + n) as char;
    let s = seq!['#', d, d, d];
    assert(d as int == 55 + n);
    lemma_trim_plain(s);
    let h = s.drop_first();
    assert(h =~= seq![d, d, d]);
    assert(all_hex(h));
}

} // verus!
