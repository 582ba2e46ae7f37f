//! The parts of the export formats that decide what is written: the
//! palette listing every format shares, and when a TOML value must be
//! quoted.

use vstd::prelude::*;

use crate::decimal::{
    first_exp_mark, first_point, float_literal, lemma_first_exp_mark_bound, lemma_first_point_bound,
};
use crate::color::{packed, parse_color, Rgba};
use crate::error::append;
use crate::palette::Palette;
use crate::table::{pair_views, sorted_listing};
use crate::text::{chars_of, push_char, replace_char, replaced};

verus! {

/// Every resolved palette entry, sorted by key — the `palette` table of
/// every export format. It is the listing `Palette::entries` gives: a map
/// has one sorted listing (`law_sorted_listing_unique`).
pub fn resolved_palette(palette: &Palette) -> (out: Vec<(String, String)>)
    ensures
        sorted_listing(pair_views(out@), palette@.entries),
{
    palette.entries()
}

/// Whether a TOML value must be written quoted: bare values may only be
/// numbers, so anything that does not read as a floating-point literal
/// (every color, since `#...` would start a comment) is quoted.
pub fn needs_quotes(value: &str) -> (r: bool)
    ensures
        r == (float_literal(value@) is None),
{
    let v = chars_of(value);
    proof {
        assert(v@.subrange(0, v@.len() as int) =~= value@);
    }
    !crate::decimal::is_float_literal(&v, 0, v.len())
}

/// Every value written `#...` (every hex color) is quoted: none of them
/// reads as a number.
pub proof fn law_hash_values_are_quoted(s: Seq<char>)
    requires
        s.len() > 0,
        s[0] == '#',
    ensures
        float_literal(s) is None,
{
    lemma_first_exp_mark_bound(s);
    lemma_first_exp_mark_bound(s.drop_first());
    let j = first_exp_mark(s);
    assert(j >= 1);
    let mant = s.subrange(0, j);
    assert(mant[0] == '#');
    lemma_first_point_bound(mant);
    lemma_first_point_bound(mant.drop_first());
    let p = first_point(mant);
    assert(p >= 1);
    let ip = mant.subrange(0, p);
    assert(ip[0] == '#');
}

// ---------------------------------------------------------------------------
// The palette parts of the text formats
// ---------------------------------------------------------------------------

/// `"v"`.
pub open spec fn quoted(v: Seq<char>) -> Seq<char> {
    seq!['"'] + v + seq!['"']
}

/// A palette value as TOML writes it: bare when it reads as a number,
/// quoted otherwise.
pub open spec fn toml_value(v: Seq<char>) -> Seq<char> {
    if float_literal(v) is None {
        quoted(v)
    } else {
        v
    }
}

/// `key = value` lines of the `[palette]` table.
pub open spec fn toml_lines(p: Seq<(Seq<char>, Seq<char>)>) -> Seq<char>
    decreases p.len(),
{
    if p.len() == 0 {
        Seq::empty()
    } else {
        toml_lines(p.drop_last()) + p.last().0 + " = "@ + toml_value(p.last().1) + "\n"@
    }
}

/// `  --omarchy-key: value;` lines of the `:root` block.
pub open spec fn css_lines(p: Seq<(Seq<char>, Seq<char>)>) -> Seq<char>
    decreases p.len(),
{
    if p.len() == 0 {
        Seq::empty()
    } else {
        css_lines(p.drop_last()) + "  --omarchy-"@ + p.last().0 + ": "@ + p.last().1 + ";\n"@
    }
}

/// `str::to_uppercase` of a text: Unicode's uppercase mapping, a function
/// of the text alone.
pub uninterp spec fn uppercase(s: Seq<char>) -> Seq<char>;

/// `str::to_uppercase`; its result is `uppercase` of its argument.
#[verifier::external_body]
fn to_uppercase(s: &str) -> (r: String)
    ensures
        r@ == uppercase(s@),
{
    s.to_uppercase()
}

/// An uppercase hex digit for `0 <= n < 16`.
pub open spec fn upper_hex_digit(n: int) -> char {
    if n < 10 {
        (48 + n) as char
    } else {
        (55 + n) as char
    }
}

/// The last `n` hex digits of `v`, most significant first, uppercase.
pub open spec fn upper_hex(v: nat, n: nat) -> Seq<char>
    decreases n,
{
    if n == 0 {
        Seq::empty()
    } else {
        upper_hex(v / 16, (n - 1) as nat).push(upper_hex_digit((v % 16) as int))
    }
}

/// `#define OMC_KEY 0xRRGGBBAAu /* value */` lines, one per entry whose
/// value is a color.
pub open spec fn c_lines(p: Seq<(Seq<char>, Seq<char>)>) -> Seq<char>
    decreases p.len(),
{
    if p.len() == 0 {
        Seq::empty()
    } else {
        c_lines(p.drop_last()) + match parse_color(p.last().1) {
            Some(c) => "#define OMC_"@ + uppercase(p.last().0) + " 0x"@ + upper_hex(
                packed(c) as nat,
                8,
            ) + "u /* "@ + p.last().1 + " */\n"@,
            None => Seq::empty(),
        }
    }
}

/// The include guard of a generated C header.
pub open spec fn c_guard_name(theme: Seq<char>) -> Seq<char> {
    "OMARCHY_THEME_GENERATED_"@ + replaced(uppercase(theme), '-', '_') + "_H"@
}

proof fn lemma_prefix_step(p: Seq<(Seq<char>, Seq<char>)>, i: int)
    requires
        0 <= i < p.len(),
    ensures
        p.subrange(0, i + 1).drop_last() == p.subrange(0, i),
        p.subrange(0, i + 1).last() == p[i],
{
    assert(p.subrange(0, i + 1).drop_last() =~= p.subrange(0, i));
}

/// The `[palette]` lines of the TOML export.
pub fn toml_palette(palette: &Vec<(String, String)>) -> (out: String)
    ensures
        out@ == toml_lines(pair_views(palette@)),
{
    let ghost p = pair_views(palette@);
    let mut out = String::new();
    let mut i: usize = 0;
    proof {
        assert(p.subrange(0, 0) =~= Seq::<(Seq<char>, Seq<char>)>::empty());
    }
    while i < palette.len()
        invariant
            i <= palette@.len(),
            p == pair_views(palette@),
            out@ == toml_lines(p.subrange(0, i as int)),
        decreases palette@.len() - i,
    {
        let k = palette[i].0.as_str();
        let v = palette[i].1.as_str();
        let ghost before = out@;
        append(&mut out, k);
        append(&mut out, " = ");
        let ghost head = out@;
        if needs_quotes(v) {
            push_char(&mut out, '"');
            append(&mut out, v);
            push_char(&mut out, '"');
            proof {
                assert(out@ =~= head + quoted(v@));
            }
        } else {
            append(&mut out, v);
        }
        proof {
            assert(out@ =~= head + toml_value(v@));
        }
        append(&mut out, "\n");
        proof {
            lemma_prefix_step(p, i as int);
            assert(p[i as int] == (k@, v@));
            assert(out@ =~= toml_lines(p.subrange(0, i + 1)));
        }
        i += 1;
    }
    proof {
        assert(p.subrange(0, p.len() as int) =~= p);
    }
    out
}

/// The palette custom-property lines of the CSS export.
pub fn css_palette(palette: &Vec<(String, String)>) -> (out: String)
    ensures
        out@ == css_lines(pair_views(palette@)),
{
    let ghost p = pair_views(palette@);
    let mut out = String::new();
    let mut i: usize = 0;
    proof {
        assert(p.subrange(0, 0) =~= Seq::<(Seq<char>, Seq<char>)>::empty());
    }
    while i < palette.len()
        invariant
            i <= palette@.len(),
            p == pair_views(palette@),
            out@ == css_lines(p.subrange(0, i as int)),
        decreases palette@.len() - i,
    {
        let k = palette[i].0.as_str();
        let v = palette[i].1.as_str();
        append(&mut out, "  --omarchy-");
        append(&mut out, k);
        append(&mut out, ": ");
        append(&mut out, v);
        append(&mut out, ";\n");
        proof {
            lemma_prefix_step(p, i as int);
            assert(p[i as int] == (k@, v@));
            assert(out@ =~= css_lines(p.subrange(0, i + 1)));
        }
        i += 1;
    }
    proof {
        assert(p.subrange(0, p.len() as int) =~= p);
    }
    out
}

fn upper_hex_char(n: u32) -> (c: char)
    requires
        n < 16,
    ensures
        c == upper_hex_digit(n as int),
{
    if n < 10 {
        ((48 + n) as u8) as char
    } else {
        ((55 + n) as u8) as char
    }
}

/// Appends the last `n` hex digits of `v`, uppercase.
fn push_upper_hex(s: &mut String, v: u32, n: u32)
    requires
        n <= 8,
    ensures
        final(s)@ == old(s)@ + upper_hex(v as nat, n as nat),
    decreases n,
{
    if n > 0 {
        push_upper_hex(s, v / 16, n - 1);
        push_char(s, upper_hex_char(v % 16));
    } else {
        proof {
            assert(old(s)@ + Seq::<char>::empty() =~= old(s)@);
        }
    }
}

/// The palette `#define` lines of the C header export: one per entry whose
/// value is a color, packed `0xRRGGBBAA`.
pub fn c_palette(palette: &Vec<(String, String)>) -> (out: String)
    ensures
        out@ == c_lines(pair_views(palette@)),
{
    let ghost p = pair_views(palette@);
    let mut out = String::new();
    let mut i: usize = 0;
    proof {
        assert(p.subrange(0, 0) =~= Seq::<(Seq<char>, Seq<char>)>::empty());
    }
    while i < palette.len()
        invariant
            i <= palette@.len(),
            p == pair_views(palette@),
            out@ == c_lines(p.subrange(0, i as int)),
        decreases palette@.len() - i,
    {
        let k = palette[i].0.as_str();
        let v = palette[i].1.as_str();
        let ghost before = out@;
        match Rgba::parse(v) {
            Some(c) => {
                append(&mut out, "#define OMC_");
                let ident = to_uppercase(k);
                append(&mut out, ident.as_str());
                append(&mut out, " 0x");
                push_upper_hex(&mut out, c.to_u32(), 8);
                append(&mut out, "u /* ");
                append(&mut out, v);
                append(&mut out, " */\n");
            },
            None => {},
        }
        proof {
            lemma_prefix_step(p, i as int);
            assert(p[i as int] == (k@, v@));
            assert(out@ =~= c_lines(p.subrange(0, i + 1)));
        }
        i += 1;
    }
    proof {
        assert(p.subrange(0, p.len() as int) =~= p);
    }
    out
}

/// The include guard of the C header generated for `theme`.
pub fn c_guard(theme: &str) -> (out: String)
    ensures
        out@ == c_guard_name(theme@),
{
    let upper = to_uppercase(theme);
    let body = replace_char(upper.as_str(), '-', '_');
    let mut out = "OMARCHY_THEME_GENERATED_".to_owned();
    append(&mut out, body.as_str());
    append(&mut out, "_H");
    out
}

// ---------------------------------------------------------------------------
// The other fixed lines of the text formats
// ---------------------------------------------------------------------------

/// `prefix` + `v` + `"` and a newline, or nothing when `v` is empty.
pub open spec fn optional_line(prefix: Seq<char>, v: Seq<char>) -> Seq<char> {
    if v.len() == 0 {
        Seq::empty()
    } else {
        prefix + v + "\"\n"@
    }
}

/// The heading and `[meta]` table of the TOML export.
pub open spec fn toml_meta_text(
    theme: Seq<char>,
    mode: Seq<char>,
    font_family: Seq<char>,
    font_path: Seq<char>,
    background: Seq<char>,
) -> Seq<char> {
    "# omarchy-theme export: "@ + theme + "\n\n[meta]\ntheme = \""@ + theme + "\"\nmode = \""@ + mode
        + "\"\n"@ + optional_line("font-family = \""@, font_family) + optional_line(
        "font-path = \""@,
        font_path,
    ) + optional_line("background = \""@, background)
}

fn append_optional_line(out: &mut String, prefix: &str, v: &str)
    ensures
        final(out)@ == old(out)@ + optional_line(prefix@, v@),
{
    if v.is_empty() {
        proof {
            assert(old(out)@ + Seq::<char>::empty() =~= old(out)@);
        }
    } else {
        append(out, prefix);
        append(out, v);
        append(out, "\"\n");
        proof {
            assert(final(out)@ =~= old(out)@ + optional_line(prefix@, v@));
        }
    }
}

/// The heading and `[meta]` table of the TOML export; the font and
/// background lines only when they are known.
pub fn toml_meta(theme: &str, mode: &str, font_family: &str, font_path: &str, background: &str) -> (out: String)
    ensures
        out@ == toml_meta_text(theme@, mode@, font_family@, font_path@, background@),
{
    let mut out = "# omarchy-theme export: ".to_owned();
    append(&mut out, theme);
    append(&mut out, "\n\n[meta]\ntheme = \"");
    append(&mut out, theme);
    append(&mut out, "\"\nmode = \"");
    append(&mut out, mode);
    append(&mut out, "\"\n");
    append_optional_line(&mut out, "font-family = \"", font_family);
    append_optional_line(&mut out, "font-path = \"", font_path);
    append_optional_line(&mut out, "background = \"", background);
    out
}

/// The opening of the CSS `:root` block: theme and mode properties.
pub open spec fn css_head_text(theme: Seq<char>, mode: Seq<char>) -> Seq<char> {
    ":root {\n  --omarchy-theme: "@ + theme + ";\n  --omarchy-mode: "@ + mode + ";\n"@
}

/// The opening of the CSS `:root` block: theme and mode properties.
pub fn css_head(theme: &str, mode: &str) -> (out: String)
    ensures
        out@ == css_head_text(theme@, mode@),
{
    let mut out = ":root {\n  --omarchy-theme: ".to_owned();
    append(&mut out, theme);
    append(&mut out, ";\n  --omarchy-mode: ");
    append(&mut out, mode);
    append(&mut out, ";\n");
    out
}

/// The CSS body rule naming the UI font, or nothing when it is unknown.
pub open spec fn css_font_text(family: Seq<char>) -> Seq<char> {
    if family.len() == 0 {
        Seq::empty()
    } else {
        "\nbody { font-family: \""@ + family + "\", ui-monospace, monospace; }\n"@
    }
}

/// The CSS body rule naming the UI font, or nothing when it is unknown.
pub fn css_font_rule(family: &str) -> (out: String)
    ensures
        out@ == css_font_text(family@),
{
    if family.is_empty() {
        String::new()
    } else {
        let mut out = "\nbody { font-family: \"".to_owned();
        append(&mut out, family);
        append(&mut out, "\", ui-monospace, monospace; }\n");
        out
    }
}

/// The include guard and the name and mode defines of the C header.
pub open spec fn c_defines_text(theme: Seq<char>, mode: Seq<char>) -> Seq<char> {
    "#ifndef "@ + c_guard_name(theme) + "\n#define "@ + c_guard_name(theme)
        + "\n\n#define OMARCHY_THEME_NAME \""@ + theme + "\"\n#define OMARCHY_THEME_MODE_"@ + uppercase(
        mode,
    ) + "\n"@
}

/// The include guard and the name and mode defines of the C header.
pub fn c_defines(theme: &str, mode: &str) -> (out: String)
    ensures
        out@ == c_defines_text(theme@, mode@),
{
    let guard = c_guard(theme);
    let mut out = "#ifndef ".to_owned();
    append(&mut out, guard.as_str());
    append(&mut out, "\n#define ");
    append(&mut out, guard.as_str());
    append(&mut out, "\n\n#define OMARCHY_THEME_NAME \"");
    append(&mut out, theme);
    append(&mut out, "\"\n#define OMARCHY_THEME_MODE_");
    let upper = to_uppercase(mode);
    append(&mut out, upper.as_str());
    append(&mut out, "\n");
    out
}

} // verus!
