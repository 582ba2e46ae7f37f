//! `colors.toml` parsing and the alias/derivation cascade, in the order of
//! `omarchy-theme-color`, so that consumers resolve the palettes the desktop
//! itself resolves.

use vstd::prelude::*;

use crate::color::{hex6, mix_channel, parse_color, Rgba};
use crate::table::{pair_views, sorted_listing, Table};
use crate::text::{chars_of, lines_of, next_line, string_of, trim, trim_bounds};
use crate::{mode_name, Mode};

verus! {

// ---------------------------------------------------------------------------
// The line parser
// ---------------------------------------------------------------------------

pub open spec fn is_key_noise(c: char) -> bool {
    c == '"' || c == '\'' || c == ' '
}

/// The key with every quote and space removed.
pub open spec fn strip_key_noise(s: Seq<char>) -> Seq<char>
    decreases s.len(),
{
    if s.len() == 0 {
        s
    } else {
        let p = strip_key_noise(s.drop_last());
        if is_key_noise(s.last()) {
            p
        } else {
            p.push(s.last())
        }
    }
}

pub open spec fn is_quote(c: char) -> bool {
    c == '\'' || c == '"'
}

/// Index of the first quote character, or `s.len()`.
pub open spec fn index_of_quote(s: Seq<char>) -> int
    decreases s.len(),
{
    if s.len() == 0 {
        0
    } else if is_quote(s[0]) {
        0
    } else {
        1 + index_of_quote(s.drop_first())
    }
}

/// Unquote/trim a raw value: with a quote present, the text between the
/// first quote and the next one (or the end); otherwise trimmed.
pub open spec fn extract_value(v: Seq<char>) -> Seq<char> {
    let q = index_of_quote(v);
    if q < v.len() {
        let after = v.subrange(q + 1, v.len() as int);
        after.subrange(0, index_of_quote(after))
    } else {
        trim(v)
    }
}

pub open spec fn is_ascii_alnum(c: char) -> bool {
    ('0' <= c && c <= '9') || ('a' <= c && c <= 'z') || ('A' <= c && c <= 'Z')
}

pub open spec fn is_key_char(c: char) -> bool {
    is_ascii_alnum(c) || c == '_' || c == '-'
}

/// Letters, digits, and `#(),._+/%`, space, hyphen: enough for hex,
/// `rgb()`/`rgba()`, gradients, angles, and bare words.
pub open spec fn is_value_char(c: char) -> bool {
    is_ascii_alnum(c) || c == '#' || c == '(' || c == ')' || c == ',' || c == '.' || c == '_' || c
        == '+' || c == '/' || c == '%' || c == ' ' || c == '-'
}

/// One `key = value` line: split at the first '=', key stripped of quotes
/// and spaces, value unquoted, both charset-checked; comments and malformed
/// lines give `None`.
pub open spec fn parse_line(line: Seq<char>) -> Option<(Seq<char>, Seq<char>)> {
    let j = crate::text::index_of_char(line, '=');
    if j >= line.len() {
        None
    } else {
        let key = strip_key_noise(line.subrange(0, j));
        let value = extract_value(line.subrange(j + 1, line.len() as int));
        if key.len() == 0 || key[0] == '#' {
            None
        } else if !(forall|i: int| 0 <= i < key.len() ==> is_key_char(#[trigger] key[i])) {
            None
        } else if !(forall|i: int| 0 <= i < value.len() ==> is_value_char(#[trigger] value[i])) {
            None
        } else {
            Some((key, value))
        }
    }
}

pub open spec fn add_line(m: Map<Seq<char>, Seq<char>>, line: Seq<char>) -> Map<Seq<char>, Seq<char>> {
    match parse_line(line) {
        Some((k, v)) => m.insert(k, v),
        None => m,
    }
}

pub open spec fn add_lines(m: Map<Seq<char>, Seq<char>>, ls: Seq<Seq<char>>) -> Map<Seq<char>, Seq<char>>
    decreases ls.len(),
{
    if ls.len() == 0 {
        m
    } else {
        add_lines(add_line(m, ls[0]), ls.drop_first())
    }
}

/// The raw `colors.toml` map: one entry per valid line, last definition wins.
pub open spec fn colors_map(raw: Seq<char>) -> Map<Seq<char>, Seq<char>> {
    add_lines(Map::empty(), lines_of(raw))
}

// ---------------------------------------------------------------------------
// The cascade
// ---------------------------------------------------------------------------

/// A key's value when it is present and non-empty (an empty value counts as
/// absent, as bash's `[[ ${map[k]} ]]` guard does).
pub open spec fn raw(m: Map<Seq<char>, Seq<char>>, k: Seq<char>) -> Option<Seq<char>> {
    if m.contains_key(k) && m[k].len() > 0 {
        Some(m[k])
    } else {
        None
    }
}

/// The first of `ks` that is present.
pub open spec fn first_of(m: Map<Seq<char>, Seq<char>>, ks: Seq<Seq<char>>) -> Option<Seq<char>>
    decreases ks.len(),
{
    if ks.len() == 0 {
        None
    } else {
        match raw(m, ks[0]) {
            Some(v) => Some(v),
            None => first_of(m, ks.drop_first()),
        }
    }
}

/// When `k` is absent, take the first present of `sources`.
#[verifier::opaque]
pub open spec fn fill(m: Map<Seq<char>, Seq<char>>, k: Seq<char>, sources: Seq<Seq<char>>) -> Map<
    Seq<char>,
    Seq<char>,
> {
    if raw(m, k) is None {
        match first_of(m, sources) {
            Some(v) => m.insert(k, v),
            None => m,
        }
    } else {
        m
    }
}

/// `alias_theme_color`: assign `k` from `fallback` when `k` is absent.
pub open spec fn alias(m: Map<Seq<char>, Seq<char>>, k: Seq<char>, fallback: Seq<char>) -> Map<
    Seq<char>,
    Seq<char>,
> {
    fill(m, k, seq![fallback])
}

/// Overwrite `dst` with `src` when `src` is present.
pub open spec fn copy(m: Map<Seq<char>, Seq<char>>, dst: Seq<char>, src: Seq<char>) -> Map<
    Seq<char>,
    Seq<char>,
> {
    match raw(m, src) {
        Some(v) => m.insert(dst, v),
        None => m,
    }
}

/// A key as a color, black when absent or not a color.
pub open spec fn color_or_black(m: Map<Seq<char>, Seq<char>>, k: Seq<char>) -> Rgba {
    match raw(m, k) {
        Some(v) => match parse_color(v) {
            Some(c) => c,
            None => Rgba { r: 0, g: 0, b: 0, a: 255 },
        },
        None => Rgba { r: 0, g: 0, b: 0, a: 255 },
    }
}

pub open spec fn mix_spec(c: Rgba, o: Rgba, num: int, den: int) -> Rgba {
    Rgba {
        r: mix_channel(c.r, o.r, num, den) as u8,
        g: mix_channel(c.g, o.g, num, den) as u8,
        b: mix_channel(c.b, o.b, num, den) as u8,
        a: mix_channel(c.a, o.a, num, den) as u8,
    }
}

/// When `k` is absent, derive it as `base` blended toward `o` by `num/den`.
pub open spec fn shade(
    m: Map<Seq<char>, Seq<char>>,
    k: Seq<char>,
    base: Seq<char>,
    o: Rgba,
    num: int,
    den: int,
) -> Map<Seq<char>, Seq<char>> {
    if raw(m, k) is None {
        m.insert(k, hex6(mix_spec(color_or_black(m, base), o, num, den)))
    } else {
        m
    }
}

pub open spec fn black() -> Rgba {
    Rgba { r: 0, g: 0, b: 0, a: 255 }
}

pub open spec fn white() -> Rgba {
    Rgba { r: 255, g: 255, b: 255, a: 255 }
}

/// Legacy short names; the canonical name wins when both are present.
#[verifier::opaque]
pub open spec fn stage_legacy(m: Map<Seq<char>, Seq<char>>) -> Map<Seq<char>, Seq<char>> {
    let m = alias(m, "background"@, "bg"@);
    let m = alias(m, "dark_background"@, "dark_bg"@);
    let m = alias(m, "darker_background"@, "darker_bg"@);
    let m = alias(m, "lighter_background"@, "lighter_bg"@);
    let m = alias(m, "foreground"@, "fg"@);
    let m = alias(m, "dark_foreground"@, "dark_fg"@);
    let m = alias(m, "light_foreground"@, "light_fg"@);
    alias(m, "bright_foreground"@, "bright_fg"@)
}

/// ANSI seeds for pre-semantic themes.
#[verifier::opaque]
pub open spec fn stage_seed(m: Map<Seq<char>, Seq<char>>) -> Map<Seq<char>, Seq<char>> {
    let m = alias(m, "background"@, "color0"@);
    let m = alias(m, "foreground"@, "color7"@);
    let m = copy(m, "color0"@, "background"@);
    copy(m, "color7"@, "foreground"@)
}

/// Semantic names from ANSI names.
#[verifier::opaque]
pub open spec fn stage_semantic(m: Map<Seq<char>, Seq<char>>) -> Map<Seq<char>, Seq<char>> {
    let m = alias(m, "red"@, "color1"@);
    let m = alias(m, "green"@, "color2"@);
    let m = alias(m, "yellow"@, "color3"@);
    let m = alias(m, "blue"@, "color4"@);
    let m = alias(m, "magenta"@, "color5"@);
    let m = alias(m, "cyan"@, "color6"@);
    let m = alias(m, "bright_red"@, "color9"@);
    let m = alias(m, "bright_green"@, "color10"@);
    let m = alias(m, "bright_yellow"@, "color11"@);
    let m = alias(m, "bright_blue"@, "color12"@);
    let m = alias(m, "bright_magenta"@, "color13"@);
    let m = alias(m, "bright_cyan"@, "color14"@);
    let m = alias(m, "magenta"@, "purple"@);
    alias(m, "bright_magenta"@, "bright_purple"@)
}

/// The foreground/background ramp (order-sensitive).
#[verifier::opaque]
pub open spec fn stage_ramp(m: Map<Seq<char>, Seq<char>>) -> Map<Seq<char>, Seq<char>> {
    let m = fill(m, "light_foreground"@, seq!["color7"@, "foreground"@]);
    let m = fill(m, "bright_foreground"@, seq!["color15"@, "foreground"@]);
    let m = copy(m, "cursor"@, "bright_foreground"@);
    let m = fill(m, "lighter_background"@, seq!["color0"@, "background"@]);
    let m = fill(m, "dark_foreground"@, seq!["color8"@, "foreground"@]);
    let m = fill(m, "muted"@, seq!["color8"@, "dark_foreground"@]);
    let m = fill(
        m,
        "selection"@,
        seq!["selection_background"@, "color8"@, "color0"@, "background"@],
    );
    let m = alias(m, "selection_background"@, "selection"@);
    let m = alias(m, "selection_foreground"@, "bright_foreground"@);
    let m = alias(m, "orange"@, "yellow"@);
    shade(m, "brown"@, "orange"@, black(), 1, 2)
}

/// Auto-derived shades.
#[verifier::opaque]
pub open spec fn stage_shades(m: Map<Seq<char>, Seq<char>>) -> Map<Seq<char>, Seq<char>> {
    let m = shade(m, "dark_background"@, "background"@, black(), 1, 4);
    let m = shade(m, "darker_background"@, "background"@, black(), 1, 2);
    let m = shade(m, "bright_red"@, "red"@, white(), 1, 5);
    let m = shade(m, "bright_yellow"@, "yellow"@, white(), 1, 5);
    let m = shade(m, "bright_green"@, "green"@, white(), 1, 5);
    let m = shade(m, "bright_cyan"@, "cyan"@, white(), 1, 5);
    let m = shade(m, "bright_blue"@, "blue"@, white(), 1, 5);
    let m = shade(m, "bright_magenta"@, "magenta"@, white(), 1, 5);
    let m = alias(m, "purple"@, "magenta"@);
    alias(m, "bright_purple"@, "bright_magenta"@)
}

/// ANSI slots from semantic names.
#[verifier::opaque]
pub open spec fn stage_ansi(m: Map<Seq<char>, Seq<char>>) -> Map<Seq<char>, Seq<char>> {
    let m = alias(m, "color0"@, "background"@);
    let m = alias(m, "color1"@, "red"@);
    let m = alias(m, "color2"@, "green"@);
    let m = alias(m, "color3"@, "yellow"@);
    let m = alias(m, "color4"@, "blue"@);
    let m = alias(m, "color5"@, "magenta"@);
    let m = alias(m, "color6"@, "cyan"@);
    let m = alias(m, "color7"@, "foreground"@);
    let m = alias(m, "color8"@, "muted"@);
    let m = alias(m, "color9"@, "bright_red"@);
    let m = alias(m, "color10"@, "bright_green"@);
    let m = alias(m, "color11"@, "bright_yellow"@);
    let m = alias(m, "color12"@, "bright_blue"@);
    let m = alias(m, "color13"@, "bright_magenta"@);
    let m = alias(m, "color14"@, "bright_cyan"@);
    alias(m, "color15"@, "bright_foreground"@)
}

/// Canonical names copied back to the legacy short names.
#[verifier::opaque]
pub open spec fn stage_backprop(m: Map<Seq<char>, Seq<char>>) -> Map<Seq<char>, Seq<char>> {
    let m = copy(m, "bg"@, "background"@);
    let m = copy(m, "dark_bg"@, "dark_background"@);
    let m = copy(m, "darker_bg"@, "darker_background"@);
    let m = copy(m, "lighter_bg"@, "lighter_background"@);
    let m = copy(m, "fg"@, "foreground"@);
    let m = copy(m, "dark_fg"@, "dark_foreground"@);
    let m = copy(m, "light_fg"@, "light_foreground"@);
    copy(m, "bright_fg"@, "bright_foreground"@)
}

/// The whole cascade, before the mode is decided.
#[verifier::opaque]
pub open spec fn cascade(m: Map<Seq<char>, Seq<char>>) -> Map<Seq<char>, Seq<char>> {
    stage_backprop(
        stage_ansi(stage_shades(stage_ramp(stage_semantic(stage_seed(stage_legacy(m)))))),
    )
}

/// A background `omarchy-theme-color` auto-detects from: exactly `#` and six hex digits.
pub open spec fn strict_hex6(bg: Seq<char>) -> bool {
    bg.len() == 7 && bg[0] == '#' && crate::color::all_hex(bg.drop_first())
}

/// The light/dark decision: `mode` key, legacy `theme_type`, a `light.mode`
/// marker beside the colors file, background-luminance auto-detect, dark.
pub open spec fn mode_of(m: Map<Seq<char>, Seq<char>>, marker: bool) -> Mode {
    match first_of(m, seq!["mode"@, "theme_type"@]) {
        Some(v) => if v == seq!['l', 'i', 'g', 'h', 't'] {
            Mode::Light
        } else {
            Mode::Dark
        },
        None => if marker {
            Mode::Light
        } else {
            match raw(m, "background"@) {
                Some(bg) => if strict_hex6(bg) && parse_color(bg) is Some && parse_color(
                    bg,
                )->0.r + parse_color(bg)->0.g + parse_color(bg)->0.b > 382 {
                    Mode::Light
                } else {
                    Mode::Dark
                },
                None => Mode::Dark,
            }
        },
    }
}

/// A resolved palette: every entry and the light/dark mode.
pub struct PaletteView {
    pub entries: Map<Seq<char>, Seq<char>>,
    pub mode: Mode,
}

/// The palette `Palette::resolve` yields for a `colors.toml` text.
pub open spec fn resolved(raw: Seq<char>, marker: bool) -> PaletteView {
    let m = cascade(colors_map(raw));
    let mode = mode_of(m, marker);
    PaletteView { entries: m.insert("theme_type"@, mode_name(mode)), mode }
}

/// A key's value read as a color: `None` when the key is absent or its
/// value is not a color (gradients and shell-specific specs are valid
/// palette values but not colors).
pub open spec fn color_of(m: Map<Seq<char>, Seq<char>>, k: Seq<char>) -> Option<Rgba> {
    match raw(m, k) {
        Some(v) => parse_color(v),
        None => None,
    }
}

/// `"color" + n` for an ANSI slot `n < 16`.
pub open spec fn ansi_key(n: u8) -> Seq<char> {
    if n < 10 {
        seq!['c', 'o', 'l', 'o', 'r', (48 + n) as char]
    } else {
        seq!['c', 'o', 'l', 'o', 'r', '1', (38 + n) as char]
    }
}

// ---------------------------------------------------------------------------
// Executable line parsing
// ---------------------------------------------------------------------------

fn is_key_char_exec(c: char) -> (r: bool)
    ensures
        r == is_key_char(c),
{
    ('0' <= c && c <= '9') || ('a' <= c && c <= 'z') || ('A' <= c && c <= 'Z') || c == '_' || c
        == '-'
}

fn is_value_char_exec(c: char) -> (r: bool)
    ensures
        r == is_value_char(c),
{
    ('0' <= c && c <= '9') || ('a' <= c && c <= 'z') || ('A' <= c && c <= 'Z') || c == '#' || c
        == '(' || c == ')' || c == ',' || c == '.' || c == '_' || c == '+' || c == '/' || c == '%'
        || c == ' ' || c == '-'
}

proof fn lemma_index_of_quote_at(s: Seq<char>, i: int)
    requires
        0 <= i <= s.len(),
        forall|j: int| 0 <= j < i ==> !is_quote(#[trigger] s[j]),
        i == s.len() || is_quote(s[i]),
    ensures
        index_of_quote(s) == i,
    decreases s.len(),
{
    if s.len() > 0 && i > 0 {
        let t = s.drop_first();
        assert forall|j: int| 0 <= j < i - 1 implies !is_quote(#[trigger] t[j]) by {
            assert(t[j] == s[j + 1]);
        }
        if i < s.len() {
            assert(t[i - 1] == s[i]);
        }
        assert(!is_quote(s[0]));
        lemma_index_of_quote_at(t, i - 1);
    }
}

/// First index in `[lo, hi)` holding a quote, or `hi`.
fn find_quote(v: &Vec<char>, lo: usize, hi: usize) -> (r: usize)
    requires
        lo <= hi <= v@.len(),
    ensures
        lo <= r <= hi,
        r - lo == index_of_quote(v@.subrange(lo as int, hi as int)),
{
    let mut i = lo;
    while i < hi && !(v[i] == '\'' || v[i] == '"')
        invariant
            lo <= i <= hi <= v@.len(),
            forall|j: int| lo <= j < i ==> !is_quote(#[trigger] v@[j]),
        decreases hi - i,
    {
        i += 1;
    }
    proof {
        let s = v@.subrange(lo as int, hi as int);
        assert forall|j: int| 0 <= j < i - lo implies !is_quote(#[trigger] s[j]) by {
            assert(s[j] == v@[lo + j]);
        }
        if i < hi {
            assert(s[i - lo] == v@[i as int]);
        }
        lemma_index_of_quote_at(s, i - lo);
    }
    i
}

/// The key of `v[lo..hi]`, quotes and spaces removed.
fn stripped_key(v: &Vec<char>, lo: usize, hi: usize) -> (out: Vec<char>)
    requires
        lo <= hi <= v@.len(),
    ensures
        out@ == strip_key_noise(v@.subrange(lo as int, hi as int)),
{
    let mut out: Vec<char> = Vec::new();
    let mut i = lo;
    proof {
        assert(v@.subrange(lo as int, lo as int) =~= Seq::<char>::empty());
    }
    while i < hi
        invariant
            lo <= i <= hi <= v@.len(),
            out@ == strip_key_noise(v@.subrange(lo as int, i as int)),
        decreases hi - i,
    {
        let c = v[i];
        if !(c == '"' || c == '\'' || c == ' ') {
            out.push(c);
        }
        proof {
            let now = v@.subrange(lo as int, i + 1);
            assert(now.drop_last() =~= v@.subrange(lo as int, i as int));
            assert(now.last() == c);
        }
        i += 1;
    }
    out
}

/// Bounds of `extract_value(v[lo..hi])`.
fn value_bounds(v: &Vec<char>, lo: usize, hi: usize) -> (r: (usize, usize))
    requires
        lo <= hi <= v@.len(),
    ensures
        lo <= r.0 <= r.1 <= hi,
        v@.subrange(r.0 as int, r.1 as int) == extract_value(v@.subrange(lo as int, hi as int)),
{
    let q = find_quote(v, lo, hi);
    if q < hi {
        let e = find_quote(v, q + 1, hi);
        proof {
            let s = v@.subrange(lo as int, hi as int);
            let after = s.subrange(q - lo + 1, s.len() as int);
            assert(after =~= v@.subrange(q + 1, hi as int));
            assert(after.subrange(0, e - q - 1) =~= v@.subrange(q + 1, e as int));
        }
        (q + 1, e)
    } else {
        trim_bounds(v, lo, hi)
    }
}

/// `parse_line(v[lo..hi])`, as strings.
#[verifier::loop_isolation(false)]
fn parse_line_at(v: &Vec<char>, lo: usize, hi: usize) -> (r: Option<(String, String)>)
    requires
        lo <= hi <= v@.len(),
    ensures
        match (r, parse_line(v@.subrange(lo as int, hi as int))) {
            (None, None) => true,
            (Some(p), Some(q)) => p.0@ == q.0 && p.1@ == q.1,
            _ => false,
        },
{
    let ghost line = v@.subrange(lo as int, hi as int);
    let j = crate::text::find_char(v, lo, hi, '=');
    if j == hi {
        return None;
    }
    proof {
        assert(line.subrange(0, j - lo) =~= v@.subrange(lo as int, j as int));
        assert(line.subrange(j - lo + 1, line.len() as int) =~= v@.subrange(j + 1, hi as int));
    }
    let key = stripped_key(v, lo, j);
    proof {
        assert(crate::text::index_of_char(line, '=') == j - lo);
        assert(key@ == strip_key_noise(line.subrange(0, j - lo)));
    }
    if key.len() == 0 || key[0] == '#' {
        return None;
    }
    let (a, b) = value_bounds(v, j + 1, hi);
    let mut i: usize = 0;
    while i < key.len()
        invariant
            0 <= i <= key@.len(),
            forall|t: int| 0 <= t < i ==> is_key_char(#[trigger] key@[t]),
        decreases key@.len() - i,
    {
        if !is_key_char_exec(key[i]) {
            proof {
                assert(!is_key_char(key@[i as int]));
            }
            return None;
        }
        i += 1;
    }
    let mut i = a;
    while i < b
        invariant
            a <= i <= b <= v@.len(),
            forall|t: int| a <= t < i ==> is_value_char(#[trigger] v@[t]),
        decreases b - i,
    {
        if !is_value_char_exec(v[i]) {
            proof {
                let val = v@.subrange(a as int, b as int);
                assert(val[i - a] == v@[i as int]);
            }
            return None;
        }
        i += 1;
    }
    proof {
        let val = v@.subrange(a as int, b as int);
        assert forall|t: int| 0 <= t < val.len() implies is_value_char(#[trigger] val[t]) by {
            assert(val[t] == v@[a + t]);
        }
    }
    let ks = string_of(&key, 0, key.len());
    proof {
        assert(key@.subrange(0, key@.len() as int) =~= key@);
    }
    Some((ks, string_of(v, a, b)))
}

/// The raw map of a `colors.toml` text.
fn parse_colors_text(v: &Vec<char>) -> (t: Table<String>)
    ensures
        t@ == colors_map(v@),
{
    let mut t: Table<String> = Table::new();
    let mut start: usize = 0;
    proof {
        assert(v@.subrange(0, v@.len() as int) =~= v@);
    }
    loop
        invariant
            start <= v@.len(),
            add_lines(t@, lines_of(v@.subrange(start as int, v@.len() as int))) == colors_map(v@),
        decreases v@.len() - start,
    {
        match next_line(v, start, v.len()) {
            None => {
                return t;
            },
            Some((a, b, next)) => {
                let ghost ls = lines_of(v@.subrange(start as int, v@.len() as int));
                let ghost m0 = t@;
                proof {
                    assert(ls[0] == v@.subrange(a as int, b as int));
                    assert(ls.drop_first() =~= lines_of(v@.subrange(next as int, v@.len() as int)));
                }
                match parse_line_at(v, a, b) {
                    Some((k, val)) => {
                        t.insert(k, val);
                    },
                    None => {},
                }
                proof {
                    assert(t@ == add_line(m0, ls[0]));
                }
                start = next;
            },
        }
    }
}

// ---------------------------------------------------------------------------
// The palette
// ---------------------------------------------------------------------------

/// A fully resolved Omarchy palette: every raw key from `colors.toml` plus
/// every alias, ANSI slot, and derived shade, with the precedence the
/// desktop itself applies.
#[derive(Debug)]
pub struct Palette {
    entries: Table<String>,
    mode: Mode,
}

impl View for Palette {
    type V = PaletteView;

    closed spec fn view(&self) -> PaletteView {
        PaletteView { entries: self.entries@, mode: self.mode }
    }
}

impl Clone for Palette {
    /// The same entries and mode.
    fn clone(&self) -> (p: Palette)
        ensures
            p@ == self@,
    {
        Palette { entries: self.entries.duplicate(), mode: self.mode }
    }
}

impl Default for Palette {
    /// A palette with no entries, dark.
    fn default() -> (p: Palette)
        ensures
            p@.entries == Map::<Seq<char>, Seq<char>>::empty(),
            p@.mode == Mode::Dark,
    {
        Palette { entries: Table::new(), mode: Mode::Dark }
    }
}

impl Palette {
    /// Parse raw `colors.toml` text and run the full resolution cascade.
    ///
    /// `has_light_mode_marker` is true when a `light.mode` file sits beside
    /// `colors.toml`; it is only consulted when neither `mode` nor the legacy
    /// `theme_type` key is present.
    pub fn resolve(raw: &str, has_light_mode_marker: bool) -> (p: Palette)
        ensures
            p@ == resolved(raw@, has_light_mode_marker),
    {
        let v = chars_of(raw);
        let entries = parse_colors_text(&v);
        let mut p = Palette { entries, mode: Mode::Dark };
        p.run_cascade();
        let mode = p.decide_mode(has_light_mode_marker);
        p.mode = mode;
        let name = mode.as_str();
        proof {
            reveal_strlit("theme_type");
        }
        p.entries.insert("theme_type".to_owned(), name.to_owned());
        p
    }

    /// The light/dark decision: `mode` key, legacy `theme_type`, a
    /// `light.mode` file beside the colors file, background-luminance
    /// auto-detect, then dark.
    pub fn mode(&self) -> (m: Mode)
        ensures
            m == self@.mode,
    {
        self.mode
    }

    /// Resolved value for any palette key; an empty value reads as absent.
    pub fn get(&self, key: &str) -> (r: Option<&str>)
        ensures
            match r {
                Some(s) => raw(self@.entries, key@) == Some(s@),
                None => raw(self@.entries, key@) is None,
            },
    {
        self.get_raw(key)
    }

    /// Resolved key as a color; `None` when the value is absent or is not a
    /// color.
    pub fn color(&self, key: &str) -> (r: Option<Rgba>)
        ensures
            r == color_of(self@.entries, key@),
    {
        match self.get_raw(key) {
            Some(v) => Rgba::parse(v),
            None => None,
        }
    }

    /// ANSI slot 0..=15 as a color.
    pub fn ansi(&self, index: u8) -> (r: Option<Rgba>)
        ensures
            index > 15 ==> r is None,
            index <= 15 ==> r == color_of(self@.entries, ansi_key(index)),
    {
        if index > 15 {
            return None;
        }
        proof {
            reveal_strlit("color");
        }
        let mut key = "color".to_owned();
        if index < 10 {
            crate::text::push_char(&mut key, crate::text::digit_char(index));
        } else {
            crate::text::push_char(&mut key, '1');
            crate::text::push_char(&mut key, crate::text::digit_char(index - 10));
        }
        proof {
            assert(key@ =~= ansi_key(index));
        }
        self.color(key.as_str())
    }

    /// Every resolved key with its value, in increasing key order (the
    /// `--all` keyset of `omarchy-theme-color`).
    pub fn entries(&self) -> (out: Vec<(String, String)>)
        ensures
            sorted_listing(pair_views(out@), self@.entries),
    {
        self.entries.sorted_pairs()
    }

    /// The number of resolved keys.
    pub fn len(&self) -> (n: usize)
        ensures
            n == self@.entries.dom().len(),
    {
        self.entries.len()
    }

    /// True when no key resolved at all.
    pub fn is_empty(&self) -> (r: bool)
        ensures
            r == (self@.entries.dom().len() == 0),
    {
        self.entries.len() == 0
    }

    /// A key's value, when present and non-empty.
    fn get_raw(&self, key: &str) -> (r: Option<&str>)
        ensures
            match r {
                Some(s) => raw(self.entries@, key@) == Some(s@),
                None => raw(self.entries@, key@) is None,
            },
    {
        let k = key.to_owned();
        match self.entries.get(&k) {
            Some(v) => {
                if v.as_str().is_empty() {
                    None
                } else {
                    Some(v.as_str())
                }
            },
            None => None,
        }
    }

    fn first_raw(&self, keys: &Vec<&str>) -> (r: Option<String>)
        ensures
            match r {
                Some(s) => first_of(self.entries@, keys@.map_values(|k: &str| k@)) == Some(s@),
                None => first_of(self.entries@, keys@.map_values(|k: &str| k@)) is None,
            },
    {
        let ghost ks = keys@.map_values(|k: &str| k@);
        let mut i: usize = 0;
        proof {
            assert(ks.subrange(0, ks.len() as int) =~= ks);
        }
        while i < keys.len()
            invariant
                0 <= i <= keys@.len(),
                ks == keys@.map_values(|k: &str| k@),
                first_of(self.entries@, ks) == first_of(
                    self.entries@,
                    ks.subrange(i as int, ks.len() as int),
                ),
            decreases keys@.len() - i,
        {
            let ghost rest = ks.subrange(i as int, ks.len() as int);
            proof {
                assert(rest[0] == keys@[i as int]@);
                assert(rest.drop_first() =~= ks.subrange(i + 1, ks.len() as int));
            }
            match self.get_raw(keys[i]) {
                Some(v) => {
                    return Some(v.to_owned());
                },
                None => {},
            }
            i += 1;
        }
        proof {
            assert(ks.subrange(i as int, ks.len() as int) =~= Seq::<Seq<char>>::empty());
        }
        None
    }

    /// `fill(key, sources)`.
    fn fill(&mut self, key: &str, sources: Vec<&str>)
        ensures
            final(self)@.entries == fill(
                old(self)@.entries,
                key@,
                sources@.map_values(|k: &str| k@),
            ),
            final(self)@.mode == old(self)@.mode,
    {
        proof {
            reveal(fill);
        }
        if self.get_raw(key).is_none() {
            match self.first_raw(&sources) {
                Some(v) => {
                    self.entries.insert(key.to_owned(), v);
                },
                None => {},
            }
        }
    }

    /// `alias(key, fallback)`.
    fn alias(&mut self, key: &str, fallback: &str)
        ensures
            final(self)@.entries == alias(old(self)@.entries, key@, fallback@),
            final(self)@.mode == old(self)@.mode,
    {
        let srcs = vec![fallback];
        proof {
            assert(srcs@.map_values(|k: &str| k@) =~= seq![fallback@]);
        }
        self.fill(key, srcs);
    }

    /// `copy(dst, src)`.
    fn copy(&mut self, dst: &str, src: &str)
        ensures
            final(self)@.entries == copy(old(self)@.entries, dst@, src@),
            final(self)@.mode == old(self)@.mode,
    {
        match self.get_raw(src) {
            Some(v) => {
                let v = v.to_owned();
                self.entries.insert(dst.to_owned(), v);
            },
            None => {},
        }
    }

    /// A key as a color, black when absent or unparseable.
    fn color_or(&self, key: &str) -> (c: Rgba)
        ensures
            c == color_or_black(self@.entries, key@),
    {
        match self.get_raw(key) {
            Some(v) => match Rgba::parse(v) {
                Some(c) => c,
                None => Rgba::black(),
            },
            None => Rgba::black(),
        }
    }

    /// `shade(key, base, other, num/den)`.
    fn shade(&mut self, key: &str, base: &str, other: Rgba, num: u32, den: u32)
        requires
            0 < den <= 1000,
            num <= den,
        ensures
            final(self)@.entries == shade(
                old(self)@.entries,
                key@,
                base@,
                other,
                num as int,
                den as int,
            ),
            final(self)@.mode == old(self)@.mode,
    {
        if self.get_raw(key).is_none() {
            let c = self.color_or(base);
            let mixed = c.mix_fraction(other, num, den);
            proof {
                assert(mixed == mix_spec(c, other, num as int, den as int));
            }
            self.entries.insert(key.to_owned(), mixed.to_hex());
        }
    }

    fn run_legacy(&mut self)
        ensures
            final(self)@.entries == stage_legacy(old(self)@.entries),
            final(self)@.mode == old(self)@.mode,
    {
        proof {
            reveal(stage_legacy);
        }
        self.alias("background", "bg");
        self.alias("dark_background", "dark_bg");
        self.alias("darker_background", "darker_bg");
        self.alias("lighter_background", "lighter_bg");
        self.alias("foreground", "fg");
        self.alias("dark_foreground", "dark_fg");
        self.alias("light_foreground", "light_fg");
        self.alias("bright_foreground", "bright_fg");
    }

    fn run_seed(&mut self)
        ensures
            final(self)@.entries == stage_seed(old(self)@.entries),
            final(self)@.mode == old(self)@.mode,
    {
        proof {
            reveal(stage_seed);
        }
        self.alias("background", "color0");
        self.alias("foreground", "color7");
        self.copy("color0", "background");
        self.copy("color7", "foreground");
    }

    fn run_semantic(&mut self)
        ensures
            final(self)@.entries == stage_semantic(old(self)@.entries),
            final(self)@.mode == old(self)@.mode,
    {
        proof {
            reveal(stage_semantic);
        }
        self.alias("red", "color1");
        self.alias("green", "color2");
        self.alias("yellow", "color3");
        self.alias("blue", "color4");
        self.alias("magenta", "color5");
        self.alias("cyan", "color6");
        self.alias("bright_red", "color9");
        self.alias("bright_green", "color10");
        self.alias("bright_yellow", "color11");
        self.alias("bright_blue", "color12");
        self.alias("bright_magenta", "color13");
        self.alias("bright_cyan", "color14");
        self.alias("magenta", "purple");
        self.alias("bright_magenta", "bright_purple");
    }

    fn run_ramp(&mut self)
        ensures
            final(self)@.entries == stage_ramp(old(self)@.entries),
            final(self)@.mode == old(self)@.mode,
    {
        proof {
            reveal(stage_ramp);
        }
        let srcs = vec!["color7", "foreground"];
        proof {
            assert(srcs@.map_values(|k: &str| k@) =~= seq!["color7"@, "foreground"@,]);
        }
        self.fill("light_foreground", srcs);
        let srcs = vec!["color15", "foreground"];
        proof {
            assert(srcs@.map_values(|k: &str| k@) =~= seq!["color15"@, "foreground"@,]);
        }
        self.fill("bright_foreground", srcs);
        self.copy("cursor", "bright_foreground");
        let srcs = vec!["color0", "background"];
        proof {
            assert(srcs@.map_values(|k: &str| k@) =~= seq!["color0"@, "background"@,]);
        }
        self.fill("lighter_background", srcs);
        let srcs = vec!["color8", "foreground"];
        proof {
            assert(srcs@.map_values(|k: &str| k@) =~= seq!["color8"@, "foreground"@,]);
        }
        self.fill("dark_foreground", srcs);
        let srcs = vec!["color8", "dark_foreground"];
        proof {
            assert(srcs@.map_values(|k: &str| k@) =~= seq!["color8"@, "dark_foreground"@,]);
        }
        self.fill("muted", srcs);
        let srcs = vec!["selection_background", "color8", "color0", "background"];
        proof {
            assert(srcs@.map_values(|k: &str| k@) =~= seq!["selection_background"@, "color8"@, "color0"@, "background"@]);
        }
        self.fill("selection", srcs);
        self.alias("selection_background", "selection");
        self.alias("selection_foreground", "bright_foreground");
        self.alias("orange", "yellow");
        self.shade("brown", "orange", Rgba::black(), 1, 2);
    }

    fn run_shades(&mut self)
        ensures
            final(self)@.entries == stage_shades(old(self)@.entries),
            final(self)@.mode == old(self)@.mode,
    {
        proof {
            reveal(stage_shades);
        }
        self.shade("dark_background", "background", Rgba::black(), 1, 4);
        self.shade("darker_background", "background", Rgba::black(), 1, 2);
        self.shade("bright_red", "red", Rgba::white(), 1, 5);
        self.shade("bright_yellow", "yellow", Rgba::white(), 1, 5);
        self.shade("bright_green", "green", Rgba::white(), 1, 5);
        self.shade("bright_cyan", "cyan", Rgba::white(), 1, 5);
        self.shade("bright_blue", "blue", Rgba::white(), 1, 5);
        self.shade("bright_magenta", "magenta", Rgba::white(), 1, 5);
        self.alias("purple", "magenta");
        self.alias("bright_purple", "bright_magenta");
    }

    fn run_ansi(&mut self)
        ensures
            final(self)@.entries == stage_ansi(old(self)@.entries),
            final(self)@.mode == old(self)@.mode,
    {
        proof {
            reveal(stage_ansi);
        }
        self.alias("color0", "background");
        self.alias("color1", "red");
        self.alias("color2", "green");
        self.alias("color3", "yellow");
        self.alias("color4", "blue");
        self.alias("color5", "magenta");
        self.alias("color6", "cyan");
        self.alias("color7", "foreground");
        self.alias("color8", "muted");
        self.alias("color9", "bright_red");
        self.alias("color10", "bright_green");
        self.alias("color11", "bright_yellow");
        self.alias("color12", "bright_blue");
        self.alias("color13", "bright_magenta");
        self.alias("color14", "bright_cyan");
        self.alias("color15", "bright_foreground");
    }

    fn run_backprop(&mut self)
        ensures
            final(self)@.entries == stage_backprop(old(self)@.entries),
            final(self)@.mode == old(self)@.mode,
    {
        proof {
            reveal(stage_backprop);
        }
        self.copy("bg", "background");
        self.copy("dark_bg", "dark_background");
        self.copy("darker_bg", "darker_background");
        self.copy("lighter_bg", "lighter_background");
        self.copy("fg", "foreground");
        self.copy("dark_fg", "dark_foreground");
        self.copy("light_fg", "light_foreground");
        self.copy("bright_fg", "bright_foreground");
    }

    fn run_cascade(&mut self)
        ensures
            final(self)@.entries == cascade(old(self)@.entries),
            final(self)@.mode == old(self)@.mode,
    {
        proof {
            reveal(cascade);
        }
        self.run_legacy();
        self.run_seed();
        self.run_semantic();
        self.run_ramp();
        self.run_shades();
        self.run_ansi();
        self.run_backprop();
    }

    fn decide_mode(&self, marker: bool) -> (m: Mode)
        ensures
            m == mode_of(self@.entries, marker),
    {
        let keys = vec!["mode", "theme_type"];
        proof {
            assert(keys@.map_values(|k: &str| k@) =~= seq!["mode"@, "theme_type"@]);
        }
        let found = self.first_raw(&keys);
        match found {
            Some(v) => {
                proof {
                    reveal_strlit("light");
                }
                let light = "light".to_owned();
                proof {
                    assert(light@ =~= seq!['l', 'i', 'g', 'h', 't']);
                }
                if v == light {
                    Mode::Light
                } else {
                    Mode::Dark
                }
            },
            None => {
                if marker {
                    return Mode::Light;
                }
                match self.get_raw("background") {
                    Some(bg) => {
                        let cs = chars_of(bg);
                        if cs.len() == 7 && cs[0] == '#' && all_hex_from(&cs, 1) {
                            proof {
                                assert(cs@.drop_first() =~= cs@.subrange(1, 7));
                            }
                            match Rgba::parse(bg) {
                                Some(c) => if c.is_light_by_omarchy() {
                                    Mode::Light
                                } else {
                                    Mode::Dark
                                },
                                None => Mode::Dark,
                            }
                        } else {
                            proof {
                                if cs@.len() == 7 && cs@[0] == '#' {
                                    assert(cs@.drop_first() =~= cs@.subrange(1, 7));
                                }
                            }
                            Mode::Dark
                        }
                    },
                    None => Mode::Dark,
                }
            },
        }
    }
}

/// Every character of `v[from..]` is a hex digit.
fn all_hex_from(v: &Vec<char>, from: usize) -> (r: bool)
    requires
        from <= v@.len(),
    ensures
        r == crate::color::all_hex(v@.subrange(from as int, v@.len() as int)),
{
    let mut i = from;
    while i < v.len()
        invariant
            from <= i <= v@.len(),
            forall|j: int| from <= j < i ==> crate::color::is_hex(#[trigger] v@[j]),
        decreases v@.len() - i,
    {
        let c = v[i];
        if !(('0' <= c && c <= '9') || ('a' <= c && c <= 'f') || ('A' <= c && c <= 'F')) {
            proof {
                assert(v@.subrange(from as int, v@.len() as int)[i - from] == c);
            }
            return false;
        }
        i += 1;
    }
    proof {
        let s = v@.subrange(from as int, v@.len() as int);
        assert forall|j: int| 0 <= j < s.len() implies crate::color::is_hex(#[trigger] s[j]) by {
            assert(s[j] == v@[from + j]);
        }
    }
    true
}

} // verus!

