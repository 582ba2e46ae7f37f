//! Laws of the palette cascade: what every resolved palette satisfies,
//! whatever the `colors.toml` text.

use vstd::prelude::*;

use crate::palette::{
    add_line, add_lines, parse_line,
    alias, black, cascade, colors_map, copy, fill, first_of, raw, resolved, shade, stage_ansi, white,
    stage_backprop, stage_legacy, stage_ramp, stage_seed, stage_semantic, stage_shades,
};
use crate::color::{is_hex, parse_color, Rgba};
use crate::palette::strict_hex6;
use crate::{mode_name, Mode};

verus! {

/// `m2` holds `k` exactly as `m1` does.
pub open spec fn same_at(m1: Map<Seq<char>, Seq<char>>, m2: Map<Seq<char>, Seq<char>>, k: Seq<char>) -> bool {
    m1.contains_key(k) == m2.contains_key(k) && (m1.contains_key(k) ==> m1[k] == m2[k])
}

proof fn lemma_fill_keeps(m: Map<Seq<char>, Seq<char>>, key: Seq<char>, srcs: Seq<Seq<char>>, k: Seq<char>)
    requires
        k != key,
    ensures
        same_at(fill(m, key, srcs), m, k),
{
    reveal(fill);
}

proof fn lemma_legacy_keeps(m: Map<Seq<char>, Seq<char>>, k: Seq<char>)
    requires
        k != "background"@,
        k != "dark_background"@,
        k != "darker_background"@,
        k != "lighter_background"@,
        k != "foreground"@,
        k != "dark_foreground"@,
        k != "light_foreground"@,
        k != "bright_foreground"@,
    ensures
        same_at(stage_legacy(m), m, k),
{
    reveal(stage_legacy);
    let m1 = alias(m, "background"@, "bg"@);
    lemma_fill_keeps(m, "background"@, seq!["bg"@], k);
    let m2 = alias(m1, "dark_background"@, "dark_bg"@);
    lemma_fill_keeps(m1, "dark_background"@, seq!["dark_bg"@], k);
    let m3 = alias(m2, "darker_background"@, "darker_bg"@);
    lemma_fill_keeps(m2, "darker_background"@, seq!["darker_bg"@], k);
    let m4 = alias(m3, "lighter_background"@, "lighter_bg"@);
    lemma_fill_keeps(m3, "lighter_background"@, seq!["lighter_bg"@], k);
    let m5 = alias(m4, "foreground"@, "fg"@);
    lemma_fill_keeps(m4, "foreground"@, seq!["fg"@], k);
    let m6 = alias(m5, "dark_foreground"@, "dark_fg"@);
    lemma_fill_keeps(m5, "dark_foreground"@, seq!["dark_fg"@], k);
    let m7 = alias(m6, "light_foreground"@, "light_fg"@);
    lemma_fill_keeps(m6, "light_foreground"@, seq!["light_fg"@], k);
    let m8 = alias(m7, "bright_foreground"@, "bright_fg"@);
    lemma_fill_keeps(m7, "bright_foreground"@, seq!["bright_fg"@], k);
    assert(stage_legacy(m) == m8);
}

proof fn lemma_seed_keeps(m: Map<Seq<char>, Seq<char>>, k: Seq<char>)
    requires
        k != "background"@,
        k != "foreground"@,
        k != "color0"@,
        k != "color7"@,
    ensures
        same_at(stage_seed(m), m, k),
{
    reveal(stage_seed);
    let m1 = alias(m, "background"@, "color0"@);
    lemma_fill_keeps(m, "background"@, seq!["color0"@], k);
    let m2 = alias(m1, "foreground"@, "color7"@);
    lemma_fill_keeps(m1, "foreground"@, seq!["color7"@], k);
    let m3 = copy(m2, "color0"@, "background"@);
    let m4 = copy(m3, "color7"@, "foreground"@);
    assert(stage_seed(m) == m4);
}

proof fn lemma_semantic_keeps(m: Map<Seq<char>, Seq<char>>, k: Seq<char>)
    requires
        k != "red"@,
        k != "green"@,
        k != "yellow"@,
        k != "blue"@,
        k != "magenta"@,
        k != "cyan"@,
        k != "bright_red"@,
        k != "bright_green"@,
        k != "bright_yellow"@,
        k != "bright_blue"@,
        k != "bright_magenta"@,
        k != "bright_cyan"@,
    ensures
        same_at(stage_semantic(m), m, k),
{
    reveal(stage_semantic);
    let m1 = alias(m, "red"@, "color1"@);
    lemma_fill_keeps(m, "red"@, seq!["color1"@], k);
    let m2 = alias(m1, "green"@, "color2"@);
    lemma_fill_keeps(m1, "green"@, seq!["color2"@], k);
    let m3 = alias(m2, "yellow"@, "color3"@);
    lemma_fill_keeps(m2, "yellow"@, seq!["color3"@], k);
    let m4 = alias(m3, "blue"@, "color4"@);
    lemma_fill_keeps(m3, "blue"@, seq!["color4"@], k);
    let m5 = alias(m4, "magenta"@, "color5"@);
    lemma_fill_keeps(m4, "magenta"@, seq!["color5"@], k);
    let m6 = alias(m5, "cyan"@, "color6"@);
    lemma_fill_keeps(m5, "cyan"@, seq!["color6"@], k);
    let m7 = alias(m6, "bright_red"@, "color9"@);
    lemma_fill_keeps(m6, "bright_red"@, seq!["color9"@], k);
    let m8 = alias(m7, "bright_green"@, "color10"@);
    lemma_fill_keeps(m7, "bright_green"@, seq!["color10"@], k);
    let m9 = alias(m8, "bright_yellow"@, "color11"@);
    lemma_fill_keeps(m8, "bright_yellow"@, seq!["color11"@], k);
    let m10 = alias(m9, "bright_blue"@, "color12"@);
    lemma_fill_keeps(m9, "bright_blue"@, seq!["color12"@], k);
    let m11 = alias(m10, "bright_magenta"@, "color13"@);
    lemma_fill_keeps(m10, "bright_magenta"@, seq!["color13"@], k);
    let m12 = alias(m11, "bright_cyan"@, "color14"@);
    lemma_fill_keeps(m11, "bright_cyan"@, seq!["color14"@], k);
    let m13 = alias(m12, "magenta"@, "purple"@);
    lemma_fill_keeps(m12, "magenta"@, seq!["purple"@], k);
    let m14 = alias(m13, "bright_magenta"@, "bright_purple"@);
    lemma_fill_keeps(m13, "bright_magenta"@, seq!["bright_purple"@], k);
    assert(stage_semantic(m) == m14);
}

proof fn lemma_ramp_keeps(m: Map<Seq<char>, Seq<char>>, k: Seq<char>)
    requires
        k != "light_foreground"@,
        k != "bright_foreground"@,
        k != "cursor"@,
        k != "lighter_background"@,
        k != "dark_foreground"@,
        k != "muted"@,
        k != "selection"@,
        k != "selection_background"@,
        k != "selection_foreground"@,
        k != "orange"@,
        k != "brown"@,
    ensures
        same_at(stage_ramp(m), m, k),
{
    reveal(stage_ramp);
    let m1 = fill(m, "light_foreground"@, seq!["color7"@, "foreground"@]);
    lemma_fill_keeps(m, "light_foreground"@, seq!["color7"@, "foreground"@], k);
    let m2 = fill(m1, "bright_foreground"@, seq!["color15"@, "foreground"@]);
    lemma_fill_keeps(m1, "bright_foreground"@, seq!["color15"@, "foreground"@], k);
    let m3 = copy(m2, "cursor"@, "bright_foreground"@);
    let m4 = fill(m3, "lighter_background"@, seq!["color0"@, "background"@]);
    lemma_fill_keeps(m3, "lighter_background"@, seq!["color0"@, "background"@], k);
    let m5 = fill(m4, "dark_foreground"@, seq!["color8"@, "foreground"@]);
    lemma_fill_keeps(m4, "dark_foreground"@, seq!["color8"@, "foreground"@], k);
    let m6 = fill(m5, "muted"@, seq!["color8"@, "dark_foreground"@]);
    lemma_fill_keeps(m5, "muted"@, seq!["color8"@, "dark_foreground"@], k);
    let m7 = fill(m6, "selection"@, seq!["selection_background"@, "color8"@, "color0"@, "background"@],);
    lemma_fill_keeps(m6, "selection"@, seq!["selection_background"@, "color8"@, "color0"@, "background"@], k);
    let m8 = alias(m7, "selection_background"@, "selection"@);
    lemma_fill_keeps(m7, "selection_background"@, seq!["selection"@], k);
    let m9 = alias(m8, "selection_foreground"@, "bright_foreground"@);
    lemma_fill_keeps(m8, "selection_foreground"@, seq!["bright_foreground"@], k);
    let m10 = alias(m9, "orange"@, "yellow"@);
    lemma_fill_keeps(m9, "orange"@, seq!["yellow"@], k);
    let m11 = shade(m10, "brown"@, "orange"@, black(), 1, 2);
    assert(stage_ramp(m) == m11);
}

proof fn lemma_shades_keeps(m: Map<Seq<char>, Seq<char>>, k: Seq<char>)
    requires
        k != "dark_background"@,
        k != "darker_background"@,
        k != "bright_red"@,
        k != "bright_yellow"@,
        k != "bright_green"@,
        k != "bright_cyan"@,
        k != "bright_blue"@,
        k != "bright_magenta"@,
        k != "purple"@,
        k != "bright_purple"@,
    ensures
        same_at(stage_shades(m), m, k),
{
    reveal(stage_shades);
    let m1 = shade(m, "dark_background"@, "background"@, black(), 1, 4);
    let m2 = shade(m1, "darker_background"@, "background"@, black(), 1, 2);
    let m3 = shade(m2, "bright_red"@, "red"@, white(), 1, 5);
    let m4 = shade(m3, "bright_yellow"@, "yellow"@, white(), 1, 5);
    let m5 = shade(m4, "bright_green"@, "green"@, white(), 1, 5);
    let m6 = shade(m5, "bright_cyan"@, "cyan"@, white(), 1, 5);
    let m7 = shade(m6, "bright_blue"@, "blue"@, white(), 1, 5);
    let m8 = shade(m7, "bright_magenta"@, "magenta"@, white(), 1, 5);
    let m9 = alias(m8, "purple"@, "magenta"@);
    lemma_fill_keeps(m8, "purple"@, seq!["magenta"@], k);
    let m10 = alias(m9, "bright_purple"@, "bright_magenta"@);
    lemma_fill_keeps(m9, "bright_purple"@, seq!["bright_magenta"@], k);
    assert(stage_shades(m) == m10);
}

proof fn lemma_ansi_keeps(m: Map<Seq<char>, Seq<char>>, k: Seq<char>)
    requires
        k != "color0"@,
        k != "color1"@,
        k != "color2"@,
        k != "color3"@,
        k != "color4"@,
        k != "color5"@,
        k != "color6"@,
        k != "color7"@,
        k != "color8"@,
        k != "color9"@,
        k != "color10"@,
        k != "color11"@,
        k != "color12"@,
        k != "color13"@,
        k != "color14"@,
        k != "color15"@,
    ensures
        same_at(stage_ansi(m), m, k),
{
    reveal(stage_ansi);
    let m1 = alias(m, "color0"@, "background"@);
    lemma_fill_keeps(m, "color0"@, seq!["background"@], k);
    let m2 = alias(m1, "color1"@, "red"@);
    lemma_fill_keeps(m1, "color1"@, seq!["red"@], k);
    let m3 = alias(m2, "color2"@, "green"@);
    lemma_fill_keeps(m2, "color2"@, seq!["green"@], k);
    let m4 = alias(m3, "color3"@, "yellow"@);
    lemma_fill_keeps(m3, "color3"@, seq!["yellow"@], k);
    let m5 = alias(m4, "color4"@, "blue"@);
    lemma_fill_keeps(m4, "color4"@, seq!["blue"@], k);
    let m6 = alias(m5, "color5"@, "magenta"@);
    lemma_fill_keeps(m5, "color5"@, seq!["magenta"@], k);
    let m7 = alias(m6, "color6"@, "cyan"@);
    lemma_fill_keeps(m6, "color6"@, seq!["cyan"@], k);
    let m8 = alias(m7, "color7"@, "foreground"@);
    lemma_fill_keeps(m7, "color7"@, seq!["foreground"@], k);
    let m9 = alias(m8, "color8"@, "muted"@);
    lemma_fill_keeps(m8, "color8"@, seq!["muted"@], k);
    let m10 = alias(m9, "color9"@, "bright_red"@);
    lemma_fill_keeps(m9, "color9"@, seq!["bright_red"@], k);
    let m11 = alias(m10, "color10"@, "bright_green"@);
    lemma_fill_keeps(m10, "color10"@, seq!["bright_green"@], k);
    let m12 = alias(m11, "color11"@, "bright_yellow"@);
    lemma_fill_keeps(m11, "color11"@, seq!["bright_yellow"@], k);
    let m13 = alias(m12, "color12"@, "bright_blue"@);
    lemma_fill_keeps(m12, "color12"@, seq!["bright_blue"@], k);
    let m14 = alias(m13, "color13"@, "bright_magenta"@);
    lemma_fill_keeps(m13, "color13"@, seq!["bright_magenta"@], k);
    let m15 = alias(m14, "color14"@, "bright_cyan"@);
    lemma_fill_keeps(m14, "color14"@, seq!["bright_cyan"@], k);
    let m16 = alias(m15, "color15"@, "bright_foreground"@);
    lemma_fill_keeps(m15, "color15"@, seq!["bright_foreground"@], k);
    assert(stage_ansi(m) == m16);
}

proof fn lemma_backprop_keeps(m: Map<Seq<char>, Seq<char>>, k: Seq<char>)
    requires
        k != "bg"@,
        k != "dark_bg"@,
        k != "darker_bg"@,
        k != "lighter_bg"@,
        k != "fg"@,
        k != "dark_fg"@,
        k != "light_fg"@,
        k != "bright_fg"@,
    ensures
        same_at(stage_backprop(m), m, k),
{
    reveal(stage_backprop);
    let m1 = copy(m, "bg"@, "background"@);
    let m2 = copy(m1, "dark_bg"@, "dark_background"@);
    let m3 = copy(m2, "darker_bg"@, "darker_background"@);
    let m4 = copy(m3, "lighter_bg"@, "lighter_background"@);
    let m5 = copy(m4, "fg"@, "foreground"@);
    let m6 = copy(m5, "dark_fg"@, "dark_foreground"@);
    let m7 = copy(m6, "light_fg"@, "light_foreground"@);
    let m8 = copy(m7, "bright_fg"@, "bright_foreground"@);
    assert(stage_backprop(m) == m8);
}

proof fn lemma_mode_keys_distinct()
    ensures
        "mode"@ != "background"@,
        "mode"@ != "bg"@,
        "mode"@ != "blue"@,
        "mode"@ != "bright_blue"@,
        "mode"@ != "bright_cyan"@,
        "mode"@ != "bright_fg"@,
        "mode"@ != "bright_foreground"@,
        "mode"@ != "bright_green"@,
        "mode"@ != "bright_magenta"@,
        "mode"@ != "bright_purple"@,
        "mode"@ != "bright_red"@,
        "mode"@ != "bright_yellow"@,
        "mode"@ != "brown"@,
        "mode"@ != "color0"@,
        "mode"@ != "color1"@,
        "mode"@ != "color10"@,
        "mode"@ != "color11"@,
        "mode"@ != "color12"@,
        "mode"@ != "color13"@,
        "mode"@ != "color14"@,
        "mode"@ != "color15"@,
        "mode"@ != "color2"@,
        "mode"@ != "color3"@,
        "mode"@ != "color4"@,
        "mode"@ != "color5"@,
        "mode"@ != "color6"@,
        "mode"@ != "color7"@,
        "mode"@ != "color8"@,
        "mode"@ != "color9"@,
        "mode"@ != "cursor"@,
        "mode"@ != "cyan"@,
        "mode"@ != "dark_background"@,
        "mode"@ != "dark_bg"@,
        "mode"@ != "dark_fg"@,
        "mode"@ != "dark_foreground"@,
        "mode"@ != "darker_background"@,
        "mode"@ != "darker_bg"@,
        "mode"@ != "fg"@,
        "mode"@ != "foreground"@,
        "mode"@ != "green"@,
        "mode"@ != "light_fg"@,
        "mode"@ != "light_foreground"@,
        "mode"@ != "lighter_background"@,
        "mode"@ != "lighter_bg"@,
        "mode"@ != "magenta"@,
        "mode"@ != "muted"@,
        "mode"@ != "orange"@,
        "mode"@ != "purple"@,
        "mode"@ != "red"@,
        "mode"@ != "selection"@,
        "mode"@ != "selection_background"@,
        "mode"@ != "selection_foreground"@,
        "mode"@ != "yellow"@,
        "theme_type"@ != "background"@,
        "theme_type"@ != "bg"@,
        "theme_type"@ != "blue"@,
        "theme_type"@ != "bright_blue"@,
        "theme_type"@ != "bright_cyan"@,
        "theme_type"@ != "bright_fg"@,
        "theme_type"@ != "bright_foreground"@,
        "theme_type"@ != "bright_green"@,
        "theme_type"@ != "bright_magenta"@,
        "theme_type"@ != "bright_purple"@,
        "theme_type"@ != "bright_red"@,
        "theme_type"@ != "bright_yellow"@,
        "theme_type"@ != "brown"@,
        "theme_type"@ != "color0"@,
        "theme_type"@ != "color1"@,
        "theme_type"@ != "color10"@,
        "theme_type"@ != "color11"@,
        "theme_type"@ != "color12"@,
        "theme_type"@ != "color13"@,
        "theme_type"@ != "color14"@,
        "theme_type"@ != "color15"@,
        "theme_type"@ != "color2"@,
        "theme_type"@ != "color3"@,
        "theme_type"@ != "color4"@,
        "theme_type"@ != "color5"@,
        "theme_type"@ != "color6"@,
        "theme_type"@ != "color7"@,
        "theme_type"@ != "color8"@,
        "theme_type"@ != "color9"@,
        "theme_type"@ != "cursor"@,
        "theme_type"@ != "cyan"@,
        "theme_type"@ != "dark_background"@,
        "theme_type"@ != "dark_bg"@,
        "theme_type"@ != "dark_fg"@,
        "theme_type"@ != "dark_foreground"@,
        "theme_type"@ != "darker_background"@,
        "theme_type"@ != "darker_bg"@,
        "theme_type"@ != "fg"@,
        "theme_type"@ != "foreground"@,
        "theme_type"@ != "green"@,
        "theme_type"@ != "light_fg"@,
        "theme_type"@ != "light_foreground"@,
        "theme_type"@ != "lighter_background"@,
        "theme_type"@ != "lighter_bg"@,
        "theme_type"@ != "magenta"@,
        "theme_type"@ != "muted"@,
        "theme_type"@ != "orange"@,
        "theme_type"@ != "purple"@,
        "theme_type"@ != "red"@,
        "theme_type"@ != "selection"@,
        "theme_type"@ != "selection_background"@,
        "theme_type"@ != "selection_foreground"@,
        "theme_type"@ != "yellow"@,
{
    reveal_strlit("background");
    reveal_strlit("bg");
    reveal_strlit("blue");
    reveal_strlit("bright_blue");
    reveal_strlit("bright_cyan");
    reveal_strlit("bright_fg");
    reveal_strlit("bright_foreground");
    reveal_strlit("bright_green");
    reveal_strlit("bright_magenta");
    reveal_strlit("bright_purple");
    reveal_strlit("bright_red");
    reveal_strlit("bright_yellow");
    reveal_strlit("brown");
    reveal_strlit("color0");
    reveal_strlit("color1");
    reveal_strlit("color10");
    reveal_strlit("color11");
    reveal_strlit("color12");
    reveal_strlit("color13");
    reveal_strlit("color14");
    reveal_strlit("color15");
    reveal_strlit("color2");
    reveal_strlit("color3");
    reveal_strlit("color4");
    reveal_strlit("color5");
    reveal_strlit("color6");
    reveal_strlit("color7");
    reveal_strlit("color8");
    reveal_strlit("color9");
    reveal_strlit("cursor");
    reveal_strlit("cyan");
    reveal_strlit("dark_background");
    reveal_strlit("dark_bg");
    reveal_strlit("dark_fg");
    reveal_strlit("dark_foreground");
    reveal_strlit("darker_background");
    reveal_strlit("darker_bg");
    reveal_strlit("fg");
    reveal_strlit("foreground");
    reveal_strlit("green");
    reveal_strlit("light_fg");
    reveal_strlit("light_foreground");
    reveal_strlit("lighter_background");
    reveal_strlit("lighter_bg");
    reveal_strlit("magenta");
    reveal_strlit("mode");
    reveal_strlit("muted");
    reveal_strlit("orange");
    reveal_strlit("purple");
    reveal_strlit("red");
    reveal_strlit("selection");
    reveal_strlit("selection_background");
    reveal_strlit("selection_foreground");
    reveal_strlit("theme_type");
    reveal_strlit("yellow");
    assert("mode"@.len() == 4);
    assert("background"@.len() == 10);
    assert("bg"@.len() == 2);
    assert("mode"@[0] == 'm');
    assert("blue"@[0] == 'b');
    assert("bright_blue"@.len() == 11);
    assert("bright_cyan"@.len() == 11);
    assert("bright_fg"@.len() == 9);
    assert("bright_foreground"@.len() == 17);
    assert("bright_green"@.len() == 12);
    assert("bright_magenta"@.len() == 14);
    assert("bright_purple"@.len() == 13);
    assert("bright_red"@.len() == 10);
    assert("bright_yellow"@.len() == 13);
    assert("brown"@.len() == 5);
    assert("color0"@.len() == 6);
    assert("color1"@.len() == 6);
    assert("color10"@.len() == 7);
    assert("color11"@.len() == 7);
    assert("color12"@.len() == 7);
    assert("color13"@.len() == 7);
    assert("color14"@.len() == 7);
    assert("color15"@.len() == 7);
    assert("color2"@.len() == 6);
    assert("color3"@.len() == 6);
    assert("color4"@.len() == 6);
    assert("color5"@.len() == 6);
    assert("color6"@.len() == 6);
    assert("color7"@.len() == 6);
    assert("color8"@.len() == 6);
    assert("color9"@.len() == 6);
    assert("cursor"@.len() == 6);
    assert("cyan"@[0] == 'c');
    assert("dark_background"@.len() == 15);
    assert("dark_bg"@.len() == 7);
    assert("dark_fg"@.len() == 7);
    assert("dark_foreground"@.len() == 15);
    assert("darker_background"@.len() == 17);
    assert("darker_bg"@.len() == 9);
    assert("fg"@.len() == 2);
    assert("foreground"@.len() == 10);
    assert("green"@.len() == 5);
    assert("light_fg"@.len() == 8);
    assert("light_foreground"@.len() == 16);
    assert("lighter_background"@.len() == 18);
    assert("lighter_bg"@.len() == 10);
    assert("magenta"@.len() == 7);
    assert("muted"@.len() == 5);
    assert("orange"@.len() == 6);
    assert("purple"@.len() == 6);
    assert("red"@.len() == 3);
    assert("selection"@.len() == 9);
    assert("selection_background"@.len() == 20);
    assert("selection_foreground"@.len() == 20);
    assert("yellow"@.len() == 6);
    assert("theme_type"@[0] == 't');
    assert("background"@[0] == 'b');
    assert("theme_type"@.len() == 10);
    assert("blue"@.len() == 4);
    assert("bright_red"@[0] == 'b');
    assert("cyan"@.len() == 4);
    assert("foreground"@[0] == 'f');
    assert("lighter_bg"@[0] == 'l');
}

proof fn lemma_cursor_keys_distinct()
    ensures
        "cursor"@ != "dark_background"@,
        "cursor"@ != "darker_background"@,
        "cursor"@ != "bright_red"@,
        "cursor"@ != "bright_yellow"@,
        "cursor"@ != "bright_green"@,
        "cursor"@ != "bright_cyan"@,
        "cursor"@ != "bright_blue"@,
        "cursor"@ != "bright_magenta"@,
        "cursor"@ != "purple"@,
        "cursor"@ != "bright_purple"@,
        "cursor"@ != "color0"@,
        "cursor"@ != "color1"@,
        "cursor"@ != "color2"@,
        "cursor"@ != "color3"@,
        "cursor"@ != "color4"@,
        "cursor"@ != "color5"@,
        "cursor"@ != "color6"@,
        "cursor"@ != "color7"@,
        "cursor"@ != "color8"@,
        "cursor"@ != "color9"@,
        "cursor"@ != "color10"@,
        "cursor"@ != "color11"@,
        "cursor"@ != "color12"@,
        "cursor"@ != "color13"@,
        "cursor"@ != "color14"@,
        "cursor"@ != "color15"@,
        "cursor"@ != "bg"@,
        "cursor"@ != "dark_bg"@,
        "cursor"@ != "darker_bg"@,
        "cursor"@ != "lighter_bg"@,
        "cursor"@ != "fg"@,
        "cursor"@ != "dark_fg"@,
        "cursor"@ != "light_fg"@,
        "cursor"@ != "bright_fg"@,
        "cursor"@ != "theme_type"@,
        "cursor"@ != "lighter_background"@,
        "cursor"@ != "dark_foreground"@,
        "cursor"@ != "muted"@,
        "cursor"@ != "selection"@,
        "cursor"@ != "selection_background"@,
        "cursor"@ != "selection_foreground"@,
        "cursor"@ != "orange"@,
        "cursor"@ != "brown"@,
        "bright_foreground"@ != "dark_background"@,
        "bright_foreground"@ != "darker_background"@,
        "bright_foreground"@ != "bright_red"@,
        "bright_foreground"@ != "bright_yellow"@,
        "bright_foreground"@ != "bright_green"@,
        "bright_foreground"@ != "bright_cyan"@,
        "bright_foreground"@ != "bright_blue"@,
        "bright_foreground"@ != "bright_magenta"@,
        "bright_foreground"@ != "purple"@,
        "bright_foreground"@ != "bright_purple"@,
        "bright_foreground"@ != "color0"@,
        "bright_foreground"@ != "color1"@,
        "bright_foreground"@ != "color2"@,
        "bright_foreground"@ != "color3"@,
        "bright_foreground"@ != "color4"@,
        "bright_foreground"@ != "color5"@,
        "bright_foreground"@ != "color6"@,
        "bright_foreground"@ != "color7"@,
        "bright_foreground"@ != "color8"@,
        "bright_foreground"@ != "color9"@,
        "bright_foreground"@ != "color10"@,
        "bright_foreground"@ != "color11"@,
        "bright_foreground"@ != "color12"@,
        "bright_foreground"@ != "color13"@,
        "bright_foreground"@ != "color14"@,
        "bright_foreground"@ != "color15"@,
        "bright_foreground"@ != "bg"@,
        "bright_foreground"@ != "dark_bg"@,
        "bright_foreground"@ != "darker_bg"@,
        "bright_foreground"@ != "lighter_bg"@,
        "bright_foreground"@ != "fg"@,
        "bright_foreground"@ != "dark_fg"@,
        "bright_foreground"@ != "light_fg"@,
        "bright_foreground"@ != "bright_fg"@,
        "bright_foreground"@ != "theme_type"@,
        "bright_foreground"@ != "lighter_background"@,
        "bright_foreground"@ != "dark_foreground"@,
        "bright_foreground"@ != "muted"@,
        "bright_foreground"@ != "selection"@,
        "bright_foreground"@ != "selection_background"@,
        "bright_foreground"@ != "selection_foreground"@,
        "bright_foreground"@ != "orange"@,
        "bright_foreground"@ != "brown"@,
{
    reveal_strlit("bg");
    reveal_strlit("bright_blue");
    reveal_strlit("bright_cyan");
    reveal_strlit("bright_fg");
    reveal_strlit("bright_foreground");
    reveal_strlit("bright_green");
    reveal_strlit("bright_magenta");
    reveal_strlit("bright_purple");
    reveal_strlit("bright_red");
    reveal_strlit("bright_yellow");
    reveal_strlit("brown");
    reveal_strlit("color0");
    reveal_strlit("color1");
    reveal_strlit("color10");
    reveal_strlit("color11");
    reveal_strlit("color12");
    reveal_strlit("color13");
    reveal_strlit("color14");
    reveal_strlit("color15");
    reveal_strlit("color2");
    reveal_strlit("color3");
    reveal_strlit("color4");
    reveal_strlit("color5");
    reveal_strlit("color6");
    reveal_strlit("color7");
    reveal_strlit("color8");
    reveal_strlit("color9");
    reveal_strlit("cursor");
    reveal_strlit("dark_background");
    reveal_strlit("dark_bg");
    reveal_strlit("dark_fg");
    reveal_strlit("dark_foreground");
    reveal_strlit("darker_background");
    reveal_strlit("darker_bg");
    reveal_strlit("fg");
    reveal_strlit("light_fg");
    reveal_strlit("lighter_background");
    reveal_strlit("lighter_bg");
    reveal_strlit("muted");
    reveal_strlit("orange");
    reveal_strlit("purple");
    reveal_strlit("selection");
    reveal_strlit("selection_background");
    reveal_strlit("selection_foreground");
    reveal_strlit("theme_type");
    assert("cursor"@.len() == 6);
    assert("dark_background"@.len() == 15);
    assert("darker_background"@.len() == 17);
    assert("bright_red"@.len() == 10);
    assert("bright_yellow"@.len() == 13);
    assert("bright_green"@.len() == 12);
    assert("bright_cyan"@.len() == 11);
    assert("bright_blue"@.len() == 11);
    assert("bright_magenta"@.len() == 14);
    assert("cursor"@[0] == 'c');
    assert("purple"@[0] == 'p');
    assert("bright_purple"@.len() == 13);
    assert("cursor"@[1] == 'u');
    assert("color0"@[1] == 'o');
    assert("color1"@[1] == 'o');
    assert("color2"@[1] == 'o');
    assert("color3"@[1] == 'o');
    assert("color4"@[1] == 'o');
    assert("color5"@[1] == 'o');
    assert("color6"@[1] == 'o');
    assert("color7"@[1] == 'o');
    assert("color8"@[1] == 'o');
    assert("color9"@[1] == 'o');
    assert("color10"@.len() == 7);
    assert("color11"@.len() == 7);
    assert("color12"@.len() == 7);
    assert("color13"@.len() == 7);
    assert("color14"@.len() == 7);
    assert("color15"@.len() == 7);
    assert("bg"@.len() == 2);
    assert("dark_bg"@.len() == 7);
    assert("darker_bg"@.len() == 9);
    assert("lighter_bg"@.len() == 10);
    assert("fg"@.len() == 2);
    assert("dark_fg"@.len() == 7);
    assert("light_fg"@.len() == 8);
    assert("bright_fg"@.len() == 9);
    assert("theme_type"@.len() == 10);
    assert("lighter_background"@.len() == 18);
    assert("dark_foreground"@.len() == 15);
    assert("muted"@.len() == 5);
    assert("selection"@.len() == 9);
    assert("selection_background"@.len() == 20);
    assert("selection_foreground"@.len() == 20);
    assert("orange"@[0] == 'o');
    assert("brown"@.len() == 5);
    assert("bright_foreground"@.len() == 17);
    assert("bright_foreground"@[0] == 'b');
    assert("darker_background"@[0] == 'd');
    assert("purple"@.len() == 6);
    assert("color0"@.len() == 6);
    assert("color1"@.len() == 6);
    assert("color2"@.len() == 6);
    assert("color3"@.len() == 6);
    assert("color4"@.len() == 6);
    assert("color5"@.len() == 6);
    assert("color6"@.len() == 6);
    assert("color7"@.len() == 6);
    assert("color8"@.len() == 6);
    assert("color9"@.len() == 6);
    assert("orange"@.len() == 6);
}

proof fn lemma_ansi_seed_keys_distinct()
    ensures
        "background"@ != "red"@,
        "background"@ != "green"@,
        "background"@ != "yellow"@,
        "background"@ != "blue"@,
        "background"@ != "magenta"@,
        "background"@ != "cyan"@,
        "background"@ != "bright_red"@,
        "background"@ != "bright_green"@,
        "background"@ != "bright_yellow"@,
        "background"@ != "bright_blue"@,
        "background"@ != "bright_magenta"@,
        "background"@ != "bright_cyan"@,
        "background"@ != "light_foreground"@,
        "background"@ != "bright_foreground"@,
        "background"@ != "cursor"@,
        "background"@ != "lighter_background"@,
        "background"@ != "dark_foreground"@,
        "background"@ != "muted"@,
        "background"@ != "selection"@,
        "background"@ != "selection_background"@,
        "background"@ != "selection_foreground"@,
        "background"@ != "orange"@,
        "background"@ != "brown"@,
        "background"@ != "dark_background"@,
        "background"@ != "darker_background"@,
        "background"@ != "purple"@,
        "background"@ != "bright_purple"@,
        "background"@ != "bg"@,
        "background"@ != "dark_bg"@,
        "background"@ != "darker_bg"@,
        "background"@ != "lighter_bg"@,
        "background"@ != "fg"@,
        "background"@ != "dark_fg"@,
        "background"@ != "light_fg"@,
        "background"@ != "bright_fg"@,
        "background"@ != "theme_type"@,
        "background"@ != "color0"@,
        "background"@ != "color1"@,
        "background"@ != "color2"@,
        "background"@ != "color3"@,
        "background"@ != "color4"@,
        "background"@ != "color5"@,
        "background"@ != "color6"@,
        "background"@ != "color7"@,
        "background"@ != "color8"@,
        "background"@ != "color9"@,
        "background"@ != "color10"@,
        "background"@ != "color11"@,
        "background"@ != "color12"@,
        "background"@ != "color13"@,
        "background"@ != "color14"@,
        "background"@ != "color15"@,
        "color0"@ != "red"@,
        "color0"@ != "green"@,
        "color0"@ != "yellow"@,
        "color0"@ != "blue"@,
        "color0"@ != "magenta"@,
        "color0"@ != "cyan"@,
        "color0"@ != "bright_red"@,
        "color0"@ != "bright_green"@,
        "color0"@ != "bright_yellow"@,
        "color0"@ != "bright_blue"@,
        "color0"@ != "bright_magenta"@,
        "color0"@ != "bright_cyan"@,
        "color0"@ != "light_foreground"@,
        "color0"@ != "bright_foreground"@,
        "color0"@ != "cursor"@,
        "color0"@ != "lighter_background"@,
        "color0"@ != "dark_foreground"@,
        "color0"@ != "muted"@,
        "color0"@ != "selection"@,
        "color0"@ != "selection_background"@,
        "color0"@ != "selection_foreground"@,
        "color0"@ != "orange"@,
        "color0"@ != "brown"@,
        "color0"@ != "dark_background"@,
        "color0"@ != "darker_background"@,
        "color0"@ != "purple"@,
        "color0"@ != "bright_purple"@,
        "color0"@ != "bg"@,
        "color0"@ != "dark_bg"@,
        "color0"@ != "darker_bg"@,
        "color0"@ != "lighter_bg"@,
        "color0"@ != "fg"@,
        "color0"@ != "dark_fg"@,
        "color0"@ != "light_fg"@,
        "color0"@ != "bright_fg"@,
        "color0"@ != "theme_type"@,
        "color0"@ != "color1"@,
        "color0"@ != "color2"@,
        "color0"@ != "color3"@,
        "color0"@ != "color4"@,
        "color0"@ != "color5"@,
        "color0"@ != "color6"@,
        "color0"@ != "color7"@,
        "color0"@ != "color8"@,
        "color0"@ != "color9"@,
        "color0"@ != "color10"@,
        "color0"@ != "color11"@,
        "color0"@ != "color12"@,
        "color0"@ != "color13"@,
        "color0"@ != "color14"@,
        "color0"@ != "color15"@,
        "foreground"@ != "red"@,
        "foreground"@ != "green"@,
        "foreground"@ != "yellow"@,
        "foreground"@ != "blue"@,
        "foreground"@ != "magenta"@,
        "foreground"@ != "cyan"@,
        "foreground"@ != "bright_red"@,
        "foreground"@ != "bright_green"@,
        "foreground"@ != "bright_yellow"@,
        "foreground"@ != "bright_blue"@,
        "foreground"@ != "bright_magenta"@,
        "foreground"@ != "bright_cyan"@,
        "foreground"@ != "light_foreground"@,
        "foreground"@ != "bright_foreground"@,
        "foreground"@ != "cursor"@,
        "foreground"@ != "lighter_background"@,
        "foreground"@ != "dark_foreground"@,
        "foreground"@ != "muted"@,
        "foreground"@ != "selection"@,
        "foreground"@ != "selection_background"@,
        "foreground"@ != "selection_foreground"@,
        "foreground"@ != "orange"@,
        "foreground"@ != "brown"@,
        "foreground"@ != "dark_background"@,
        "foreground"@ != "darker_background"@,
        "foreground"@ != "purple"@,
        "foreground"@ != "bright_purple"@,
        "foreground"@ != "bg"@,
        "foreground"@ != "dark_bg"@,
        "foreground"@ != "darker_bg"@,
        "foreground"@ != "lighter_bg"@,
        "foreground"@ != "fg"@,
        "foreground"@ != "dark_fg"@,
        "foreground"@ != "light_fg"@,
        "foreground"@ != "bright_fg"@,
        "foreground"@ != "theme_type"@,
        "foreground"@ != "color0"@,
        "foreground"@ != "color1"@,
        "foreground"@ != "color2"@,
        "foreground"@ != "color3"@,
        "foreground"@ != "color4"@,
        "foreground"@ != "color5"@,
        "foreground"@ != "color6"@,
        "foreground"@ != "color7"@,
        "foreground"@ != "color8"@,
        "foreground"@ != "color9"@,
        "foreground"@ != "color10"@,
        "foreground"@ != "color11"@,
        "foreground"@ != "color12"@,
        "foreground"@ != "color13"@,
        "foreground"@ != "color14"@,
        "foreground"@ != "color15"@,
        "color7"@ != "red"@,
        "color7"@ != "green"@,
        "color7"@ != "yellow"@,
        "color7"@ != "blue"@,
        "color7"@ != "magenta"@,
        "color7"@ != "cyan"@,
        "color7"@ != "bright_red"@,
        "color7"@ != "bright_green"@,
        "color7"@ != "bright_yellow"@,
        "color7"@ != "bright_blue"@,
        "color7"@ != "bright_magenta"@,
        "color7"@ != "bright_cyan"@,
        "color7"@ != "light_foreground"@,
        "color7"@ != "bright_foreground"@,
        "color7"@ != "cursor"@,
        "color7"@ != "lighter_background"@,
        "color7"@ != "dark_foreground"@,
        "color7"@ != "muted"@,
        "color7"@ != "selection"@,
        "color7"@ != "selection_background"@,
        "color7"@ != "selection_foreground"@,
        "color7"@ != "orange"@,
        "color7"@ != "brown"@,
        "color7"@ != "dark_background"@,
        "color7"@ != "darker_background"@,
        "color7"@ != "purple"@,
        "color7"@ != "bright_purple"@,
        "color7"@ != "bg"@,
        "color7"@ != "dark_bg"@,
        "color7"@ != "darker_bg"@,
        "color7"@ != "lighter_bg"@,
        "color7"@ != "fg"@,
        "color7"@ != "dark_fg"@,
        "color7"@ != "light_fg"@,
        "color7"@ != "bright_fg"@,
        "color7"@ != "theme_type"@,
        "color7"@ != "color0"@,
        "color7"@ != "color1"@,
        "color7"@ != "color2"@,
        "color7"@ != "color3"@,
        "color7"@ != "color4"@,
        "color7"@ != "color5"@,
        "color7"@ != "color6"@,
        "color7"@ != "color8"@,
        "color7"@ != "color9"@,
        "color7"@ != "color10"@,
        "color7"@ != "color11"@,
        "color7"@ != "color12"@,
        "color7"@ != "color13"@,
        "color7"@ != "color14"@,
        "color7"@ != "color15"@,
{
    reveal_strlit("background");
    reveal_strlit("bg");
    reveal_strlit("blue");
    reveal_strlit("bright_blue");
    reveal_strlit("bright_cyan");
    reveal_strlit("bright_fg");
    reveal_strlit("bright_foreground");
    reveal_strlit("bright_green");
    reveal_strlit("bright_magenta");
    reveal_strlit("bright_purple");
    reveal_strlit("bright_red");
    reveal_strlit("bright_yellow");
    reveal_strlit("brown");
    reveal_strlit("color0");
    reveal_strlit("color1");
    reveal_strlit("color10");
    reveal_strlit("color11");
    reveal_strlit("color12");
    reveal_strlit("color13");
    reveal_strlit("color14");
    reveal_strlit("color15");
    reveal_strlit("color2");
    reveal_strlit("color3");
    reveal_strlit("color4");
    reveal_strlit("color5");
    reveal_strlit("color6");
    reveal_strlit("color7");
    reveal_strlit("color8");
    reveal_strlit("color9");
    reveal_strlit("cursor");
    reveal_strlit("cyan");
    reveal_strlit("dark_background");
    reveal_strlit("dark_bg");
    reveal_strlit("dark_fg");
    reveal_strlit("dark_foreground");
    reveal_strlit("darker_background");
    reveal_strlit("darker_bg");
    reveal_strlit("fg");
    reveal_strlit("foreground");
    reveal_strlit("green");
    reveal_strlit("light_fg");
    reveal_strlit("light_foreground");
    reveal_strlit("lighter_background");
    reveal_strlit("lighter_bg");
    reveal_strlit("magenta");
    reveal_strlit("muted");
    reveal_strlit("orange");
    reveal_strlit("purple");
    reveal_strlit("red");
    reveal_strlit("selection");
    reveal_strlit("selection_background");
    reveal_strlit("selection_foreground");
    reveal_strlit("theme_type");
    reveal_strlit("yellow");
    assert("background"@.len() == 10);
    assert("red"@.len() == 3);
    assert("green"@.len() == 5);
    assert("yellow"@.len() == 6);
    assert("blue"@.len() == 4);
    assert("magenta"@.len() == 7);
    assert("cyan"@.len() == 4);
    assert("background"@[1] == 'a');
    assert("bright_red"@[1] == 'r');
    assert("bright_green"@.len() == 12);
    assert("bright_yellow"@.len() == 13);
    assert("bright_blue"@.len() == 11);
    assert("bright_magenta"@.len() == 14);
    assert("bright_cyan"@.len() == 11);
    assert("light_foreground"@.len() == 16);
    assert("bright_foreground"@.len() == 17);
    assert("cursor"@.len() == 6);
    assert("lighter_background"@.len() == 18);
    assert("dark_foreground"@.len() == 15);
    assert("muted"@.len() == 5);
    assert("selection"@.len() == 9);
    assert("selection_background"@.len() == 20);
    assert("selection_foreground"@.len() == 20);
    assert("orange"@.len() == 6);
    assert("brown"@.len() == 5);
    assert("dark_background"@.len() == 15);
    assert("darker_background"@.len() == 17);
    assert("purple"@.len() == 6);
    assert("bright_purple"@.len() == 13);
    assert("bg"@.len() == 2);
    assert("dark_bg"@.len() == 7);
    assert("darker_bg"@.len() == 9);
    assert("background"@[0] == 'b');
    assert("lighter_bg"@[0] == 'l');
    assert("fg"@.len() == 2);
    assert("dark_fg"@.len() == 7);
    assert("light_fg"@.len() == 8);
    assert("bright_fg"@.len() == 9);
    assert("theme_type"@[0] == 't');
    assert("color0"@.len() == 6);
    assert("color1"@.len() == 6);
    assert("color2"@.len() == 6);
    assert("color3"@.len() == 6);
    assert("color4"@.len() == 6);
    assert("color5"@.len() == 6);
    assert("color6"@.len() == 6);
    assert("color7"@.len() == 6);
    assert("color8"@.len() == 6);
    assert("color9"@.len() == 6);
    assert("color10"@.len() == 7);
    assert("color11"@.len() == 7);
    assert("color12"@.len() == 7);
    assert("color13"@.len() == 7);
    assert("color14"@.len() == 7);
    assert("color15"@.len() == 7);
    assert("color0"@[0] == 'c');
    assert("yellow"@[0] == 'y');
    assert("bright_red"@.len() == 10);
    assert("color0"@[1] == 'o');
    assert("cursor"@[1] == 'u');
    assert("orange"@[0] == 'o');
    assert("purple"@[0] == 'p');
    assert("lighter_bg"@.len() == 10);
    assert("theme_type"@.len() == 10);
    assert("color0"@[5] == '0');
    assert("color1"@[5] == '1');
    assert("color2"@[5] == '2');
    assert("color3"@[5] == '3');
    assert("color4"@[5] == '4');
    assert("color5"@[5] == '5');
    assert("color6"@[5] == '6');
    assert("color7"@[5] == '7');
    assert("color8"@[5] == '8');
    assert("color9"@[5] == '9');
    assert("foreground"@.len() == 10);
    assert("foreground"@[0] == 'f');
    assert("bright_red"@[0] == 'b');
    assert("color7"@[0] == 'c');
    assert("color7"@[1] == 'o');
}

proof fn lemma_alias_present(m: Map<Seq<char>, Seq<char>>, k: Seq<char>, fallback: Seq<char>)
    requires
        raw(m, k) is Some,
    ensures
        alias(m, k, fallback) == m,
{
    reveal(fill);
}

proof fn lemma_ramp_cursor(m: Map<Seq<char>, Seq<char>>)
    ensures
        raw(stage_ramp(m), "bright_foreground"@) matches Some(v) ==> raw(stage_ramp(m), "cursor"@)
            == Some(v),
{
    lemma_cursor_keys_distinct();
    reveal(stage_ramp);
    let m1 = fill(m, "light_foreground"@, seq!["color7"@, "foreground"@]);
    let m2 = fill(m1, "bright_foreground"@, seq!["color15"@, "foreground"@]);
    let m3 = copy(m2, "cursor"@, "bright_foreground"@);
    let m4 = fill(m3, "lighter_background"@, seq!["color0"@, "background"@]);
    let m5 = fill(m4, "dark_foreground"@, seq!["color8"@, "foreground"@]);
    let m6 = fill(m5, "muted"@, seq!["color8"@, "dark_foreground"@]);
    let m7 = fill(m6, "selection"@, seq!["selection_background"@, "color8"@, "color0"@, "background"@]);
    let m8 = alias(m7, "selection_background"@, "selection"@);
    let m9 = alias(m8, "selection_foreground"@, "bright_foreground"@);
    let m10 = alias(m9, "orange"@, "yellow"@);
    let m11 = shade(m10, "brown"@, "orange"@, black(), 1, 2);
    assert(stage_ramp(m) == m11);
    let fb = "bright_foreground"@;
    let c = "cursor"@;
    lemma_fill_keeps(m3, "lighter_background"@, seq!["color0"@, "background"@], fb);
    lemma_fill_keeps(m3, "lighter_background"@, seq!["color0"@, "background"@], c);
    lemma_fill_keeps(m4, "dark_foreground"@, seq!["color8"@, "foreground"@], fb);
    lemma_fill_keeps(m4, "dark_foreground"@, seq!["color8"@, "foreground"@], c);
    lemma_fill_keeps(m5, "muted"@, seq!["color8"@, "dark_foreground"@], fb);
    lemma_fill_keeps(m5, "muted"@, seq!["color8"@, "dark_foreground"@], c);
    lemma_fill_keeps(m6, "selection"@, seq!["selection_background"@, "color8"@, "color0"@, "background"@], fb);
    lemma_fill_keeps(m6, "selection"@, seq!["selection_background"@, "color8"@, "color0"@, "background"@], c);
    lemma_fill_keeps(m7, "selection_background"@, seq!["selection"@], fb);
    lemma_fill_keeps(m7, "selection_background"@, seq!["selection"@], c);
    lemma_fill_keeps(m8, "selection_foreground"@, seq!["bright_foreground"@], fb);
    lemma_fill_keeps(m8, "selection_foreground"@, seq!["bright_foreground"@], c);
    lemma_fill_keeps(m9, "orange"@, seq!["yellow"@], fb);
    lemma_fill_keeps(m9, "orange"@, seq!["yellow"@], c);
}

proof fn lemma_ansi_keeps_slot(m: Map<Seq<char>, Seq<char>>, k: Seq<char>)
    requires
        k == "color0"@ || k == "color7"@,
        raw(m, k) is Some,
    ensures
        same_at(stage_ansi(m), m, k),
{
    lemma_ansi_seed_keys_distinct();
    reveal(stage_ansi);
    let m1 = alias(m, "color0"@, "background"@);
    if k == "color0"@ {
        lemma_alias_present(m, k, "background"@);
    } else {
        lemma_fill_keeps(m, "color0"@, seq!["background"@], k);
    }
    let m2 = alias(m1, "color1"@, "red"@);
    if k == "color1"@ {
        lemma_alias_present(m1, k, "red"@);
    } else {
        lemma_fill_keeps(m1, "color1"@, seq!["red"@], k);
    }
    let m3 = alias(m2, "color2"@, "green"@);
    if k == "color2"@ {
        lemma_alias_present(m2, k, "green"@);
    } else {
        lemma_fill_keeps(m2, "color2"@, seq!["green"@], k);
    }
    let m4 = alias(m3, "color3"@, "yellow"@);
    if k == "color3"@ {
        lemma_alias_present(m3, k, "yellow"@);
    } else {
        lemma_fill_keeps(m3, "color3"@, seq!["yellow"@], k);
    }
    let m5 = alias(m4, "color4"@, "blue"@);
    if k == "color4"@ {
        lemma_alias_present(m4, k, "blue"@);
    } else {
        lemma_fill_keeps(m4, "color4"@, seq!["blue"@], k);
    }
    let m6 = alias(m5, "color5"@, "magenta"@);
    if k == "color5"@ {
        lemma_alias_present(m5, k, "magenta"@);
    } else {
        lemma_fill_keeps(m5, "color5"@, seq!["magenta"@], k);
    }
    let m7 = alias(m6, "color6"@, "cyan"@);
    if k == "color6"@ {
        lemma_alias_present(m6, k, "cyan"@);
    } else {
        lemma_fill_keeps(m6, "color6"@, seq!["cyan"@], k);
    }
    let m8 = alias(m7, "color7"@, "foreground"@);
    if k == "color7"@ {
        lemma_alias_present(m7, k, "foreground"@);
    } else {
        lemma_fill_keeps(m7, "color7"@, seq!["foreground"@], k);
    }
    let m9 = alias(m8, "color8"@, "muted"@);
    if k == "color8"@ {
        lemma_alias_present(m8, k, "muted"@);
    } else {
        lemma_fill_keeps(m8, "color8"@, seq!["muted"@], k);
    }
    let m10 = alias(m9, "color9"@, "bright_red"@);
    if k == "color9"@ {
        lemma_alias_present(m9, k, "bright_red"@);
    } else {
        lemma_fill_keeps(m9, "color9"@, seq!["bright_red"@], k);
    }
    let m11 = alias(m10, "color10"@, "bright_green"@);
    if k == "color10"@ {
        lemma_alias_present(m10, k, "bright_green"@);
    } else {
        lemma_fill_keeps(m10, "color10"@, seq!["bright_green"@], k);
    }
    let m12 = alias(m11, "color11"@, "bright_yellow"@);
    if k == "color11"@ {
        lemma_alias_present(m11, k, "bright_yellow"@);
    } else {
        lemma_fill_keeps(m11, "color11"@, seq!["bright_yellow"@], k);
    }
    let m13 = alias(m12, "color12"@, "bright_blue"@);
    if k == "color12"@ {
        lemma_alias_present(m12, k, "bright_blue"@);
    } else {
        lemma_fill_keeps(m12, "color12"@, seq!["bright_blue"@], k);
    }
    let m14 = alias(m13, "color13"@, "bright_magenta"@);
    if k == "color13"@ {
        lemma_alias_present(m13, k, "bright_magenta"@);
    } else {
        lemma_fill_keeps(m13, "color13"@, seq!["bright_magenta"@], k);
    }
    let m15 = alias(m14, "color14"@, "bright_cyan"@);
    if k == "color14"@ {
        lemma_alias_present(m14, k, "bright_cyan"@);
    } else {
        lemma_fill_keeps(m14, "color14"@, seq!["bright_cyan"@], k);
    }
    let m16 = alias(m15, "color15"@, "bright_foreground"@);
    if k == "color15"@ {
        lemma_alias_present(m15, k, "bright_foreground"@);
    } else {
        lemma_fill_keeps(m15, "color15"@, seq!["bright_foreground"@], k);
    }
    assert(stage_ansi(m) == m16);
}

proof fn lemma_seed_slots(m: Map<Seq<char>, Seq<char>>)
    ensures
        raw(stage_seed(m), "background"@) matches Some(v) ==> raw(stage_seed(m), "color0"@) == Some(v),
        raw(stage_seed(m), "foreground"@) matches Some(v) ==> raw(stage_seed(m), "color7"@) == Some(v),
{
    lemma_ansi_seed_keys_distinct();
    reveal(stage_seed);
}

/// The `cursor` color is the resolved `bright_foreground` whenever that is
/// present.
pub proof fn law_cursor_follows_bright_foreground(text: Seq<char>, marker: bool)
    ensures
        raw(resolved(text, marker).entries, "bright_foreground"@) matches Some(v) ==> raw(
            resolved(text, marker).entries,
            "cursor"@,
        ) == Some(v),
{
    let m0 = colors_map(text);
    let m3 = stage_semantic(stage_seed(stage_legacy(m0)));
    let m4 = stage_ramp(m3);
    let m5 = stage_shades(m4);
    let m6 = stage_ansi(m5);
    let m7 = stage_backprop(m6);
    reveal(cascade);
    assert(cascade(m0) == m7);
    lemma_cursor_keys_distinct();
    lemma_ramp_cursor(m3);
    lemma_shades_keeps(m4, "cursor"@);
    lemma_shades_keeps(m4, "bright_foreground"@);
    lemma_ansi_keeps(m5, "cursor"@);
    lemma_ansi_keeps(m5, "bright_foreground"@);
    lemma_backprop_keeps(m6, "cursor"@);
    lemma_backprop_keeps(m6, "bright_foreground"@);
}

/// ANSI slot 0 is the resolved background and slot 7 the resolved
/// foreground, whenever those are present.
pub proof fn law_ansi_slots_follow_background_and_foreground(text: Seq<char>, marker: bool)
    ensures
        raw(resolved(text, marker).entries, "background"@) matches Some(v) ==> raw(
            resolved(text, marker).entries,
            "color0"@,
        ) == Some(v),
        raw(resolved(text, marker).entries, "foreground"@) matches Some(v) ==> raw(
            resolved(text, marker).entries,
            "color7"@,
        ) == Some(v),
{
    let m0 = colors_map(text);
    let m2 = stage_seed(stage_legacy(m0));
    let m3 = stage_semantic(m2);
    let m4 = stage_ramp(m3);
    let m5 = stage_shades(m4);
    let m6 = stage_ansi(m5);
    let m7 = stage_backprop(m6);
    reveal(cascade);
    assert(cascade(m0) == m7);
    lemma_ansi_seed_keys_distinct();
    lemma_seed_slots(stage_legacy(m0));
    lemma_semantic_keeps(m2, "background"@);
    lemma_semantic_keeps(m2, "color0"@);
    lemma_semantic_keeps(m2, "foreground"@);
    lemma_semantic_keeps(m2, "color7"@);
    lemma_ramp_keeps(m3, "background"@);
    lemma_ramp_keeps(m3, "color0"@);
    lemma_ramp_keeps(m3, "foreground"@);
    lemma_ramp_keeps(m3, "color7"@);
    lemma_shades_keeps(m4, "background"@);
    lemma_shades_keeps(m4, "color0"@);
    lemma_shades_keeps(m4, "foreground"@);
    lemma_shades_keeps(m4, "color7"@);
    lemma_ansi_keeps(m5, "background"@);
    lemma_ansi_keeps(m5, "foreground"@);
    if raw(m5, "color0"@) is Some {
        lemma_ansi_keeps_slot(m5, "color0"@);
    }
    if raw(m5, "color7"@) is Some {
        lemma_ansi_keeps_slot(m5, "color7"@);
    }
    lemma_backprop_keeps(m6, "background"@);
    lemma_backprop_keeps(m6, "color0"@);
    lemma_backprop_keeps(m6, "foreground"@);
    lemma_backprop_keeps(m6, "color7"@);
}

/// The cascade never writes `mode` or `theme_type`.
proof fn lemma_cascade_keeps_mode_keys(m0: Map<Seq<char>, Seq<char>>)
    ensures
        same_at(cascade(m0), m0, "mode"@),
        same_at(cascade(m0), m0, "theme_type"@),
{
    let m1 = stage_legacy(m0);
    let m2 = stage_seed(m1);
    let m3 = stage_semantic(m2);
    let m4 = stage_ramp(m3);
    let m5 = stage_shades(m4);
    let m6 = stage_ansi(m5);
    let m7 = stage_backprop(m6);
    reveal(cascade);
    assert(cascade(m0) == m7);
    lemma_mode_keys_distinct();
    lemma_legacy_keeps(m0, "mode"@);
    lemma_legacy_keeps(m0, "theme_type"@);
    lemma_seed_keeps(m1, "mode"@);
    lemma_seed_keeps(m1, "theme_type"@);
    lemma_semantic_keeps(m2, "mode"@);
    lemma_semantic_keeps(m2, "theme_type"@);
    lemma_ramp_keeps(m3, "mode"@);
    lemma_ramp_keeps(m3, "theme_type"@);
    lemma_shades_keeps(m4, "mode"@);
    lemma_shades_keeps(m4, "theme_type"@);
    lemma_ansi_keeps(m5, "mode"@);
    lemma_ansi_keeps(m5, "theme_type"@);
    lemma_backprop_keeps(m6, "mode"@);
    lemma_backprop_keeps(m6, "theme_type"@);
}

/// Mode precedence: the file's `mode` key decides, else its legacy
/// `theme_type` key ("light" means light, any other value dark); with
/// neither, a `light.mode` marker beside the file means light.
pub proof fn law_mode_precedence(text: Seq<char>, marker: bool)
    ensures
        first_of(colors_map(text), seq!["mode"@, "theme_type"@]) matches Some(v) ==> resolved(
            text,
            marker,
        ).mode == (if v == seq!['l', 'i', 'g', 'h', 't'] {
            Mode::Light
        } else {
            Mode::Dark
        }),
        first_of(colors_map(text), seq!["mode"@, "theme_type"@]) is None && marker ==> resolved(
            text,
            marker,
        ).mode == Mode::Light,
{
    let m0 = colors_map(text);
    lemma_cascade_keeps_mode_keys(m0);
    reveal_with_fuel(first_of, 3);
    let ks = seq!["mode"@, "theme_type"@];
    assert(ks.drop_first() =~= seq!["theme_type"@]);
    assert(seq!["theme_type"@].drop_first() =~= Seq::<Seq<char>>::empty());
    assert(first_of(cascade(m0), ks) == first_of(m0, ks));
}

/// After resolution, `theme_type` names the mode that was decided.
pub proof fn law_theme_type_names_mode(text: Seq<char>, marker: bool)
    ensures
        raw(resolved(text, marker).entries, "theme_type"@) == Some(mode_name(resolved(text, marker).mode)),
{
}

proof fn lemma_legacy_names_distinct()
    ensures
        "bg"@ != "background"@,
        "bg"@ != "dark_background"@,
        "bg"@ != "dark_bg"@,
        "bg"@ != "darker_background"@,
        "bg"@ != "darker_bg"@,
        "bg"@ != "lighter_background"@,
        "bg"@ != "lighter_bg"@,
        "bg"@ != "foreground"@,
        "bg"@ != "fg"@,
        "bg"@ != "dark_foreground"@,
        "bg"@ != "dark_fg"@,
        "bg"@ != "light_foreground"@,
        "bg"@ != "light_fg"@,
        "bg"@ != "bright_foreground"@,
        "bg"@ != "bright_fg"@,
        "bg"@ != "theme_type"@,
        "background"@ != "theme_type"@,
        "dark_bg"@ != "background"@,
        "dark_bg"@ != "dark_background"@,
        "dark_bg"@ != "darker_background"@,
        "dark_bg"@ != "darker_bg"@,
        "dark_bg"@ != "lighter_background"@,
        "dark_bg"@ != "lighter_bg"@,
        "dark_bg"@ != "foreground"@,
        "dark_bg"@ != "fg"@,
        "dark_bg"@ != "dark_foreground"@,
        "dark_bg"@ != "dark_fg"@,
        "dark_bg"@ != "light_foreground"@,
        "dark_bg"@ != "light_fg"@,
        "dark_bg"@ != "bright_foreground"@,
        "dark_bg"@ != "bright_fg"@,
        "dark_bg"@ != "theme_type"@,
        "dark_background"@ != "theme_type"@,
        "darker_bg"@ != "background"@,
        "darker_bg"@ != "dark_background"@,
        "darker_bg"@ != "darker_background"@,
        "darker_bg"@ != "lighter_background"@,
        "darker_bg"@ != "lighter_bg"@,
        "darker_bg"@ != "foreground"@,
        "darker_bg"@ != "fg"@,
        "darker_bg"@ != "dark_foreground"@,
        "darker_bg"@ != "dark_fg"@,
        "darker_bg"@ != "light_foreground"@,
        "darker_bg"@ != "light_fg"@,
        "darker_bg"@ != "bright_foreground"@,
        "darker_bg"@ != "bright_fg"@,
        "darker_bg"@ != "theme_type"@,
        "darker_background"@ != "theme_type"@,
        "lighter_bg"@ != "background"@,
        "lighter_bg"@ != "dark_background"@,
        "lighter_bg"@ != "darker_background"@,
        "lighter_bg"@ != "lighter_background"@,
        "lighter_bg"@ != "foreground"@,
        "lighter_bg"@ != "fg"@,
        "lighter_bg"@ != "dark_foreground"@,
        "lighter_bg"@ != "dark_fg"@,
        "lighter_bg"@ != "light_foreground"@,
        "lighter_bg"@ != "light_fg"@,
        "lighter_bg"@ != "bright_foreground"@,
        "lighter_bg"@ != "bright_fg"@,
        "lighter_bg"@ != "theme_type"@,
        "lighter_background"@ != "theme_type"@,
        "fg"@ != "background"@,
        "fg"@ != "dark_background"@,
        "fg"@ != "darker_background"@,
        "fg"@ != "lighter_background"@,
        "fg"@ != "foreground"@,
        "fg"@ != "dark_foreground"@,
        "fg"@ != "dark_fg"@,
        "fg"@ != "light_foreground"@,
        "fg"@ != "light_fg"@,
        "fg"@ != "bright_foreground"@,
        "fg"@ != "bright_fg"@,
        "fg"@ != "theme_type"@,
        "foreground"@ != "theme_type"@,
        "dark_fg"@ != "background"@,
        "dark_fg"@ != "dark_background"@,
        "dark_fg"@ != "darker_background"@,
        "dark_fg"@ != "lighter_background"@,
        "dark_fg"@ != "foreground"@,
        "dark_fg"@ != "dark_foreground"@,
        "dark_fg"@ != "light_foreground"@,
        "dark_fg"@ != "light_fg"@,
        "dark_fg"@ != "bright_foreground"@,
        "dark_fg"@ != "bright_fg"@,
        "dark_fg"@ != "theme_type"@,
        "dark_foreground"@ != "theme_type"@,
        "light_fg"@ != "background"@,
        "light_fg"@ != "dark_background"@,
        "light_fg"@ != "darker_background"@,
        "light_fg"@ != "lighter_background"@,
        "light_fg"@ != "foreground"@,
        "light_fg"@ != "dark_foreground"@,
        "light_fg"@ != "light_foreground"@,
        "light_fg"@ != "bright_foreground"@,
        "light_fg"@ != "bright_fg"@,
        "light_fg"@ != "theme_type"@,
        "light_foreground"@ != "theme_type"@,
        "bright_fg"@ != "background"@,
        "bright_fg"@ != "dark_background"@,
        "bright_fg"@ != "darker_background"@,
        "bright_fg"@ != "lighter_background"@,
        "bright_fg"@ != "foreground"@,
        "bright_fg"@ != "dark_foreground"@,
        "bright_fg"@ != "light_foreground"@,
        "bright_fg"@ != "bright_foreground"@,
        "bright_fg"@ != "theme_type"@,
        "bright_foreground"@ != "theme_type"@,
{
    reveal_strlit("background");
    reveal_strlit("bg");
    reveal_strlit("bright_fg");
    reveal_strlit("bright_foreground");
    reveal_strlit("dark_background");
    reveal_strlit("dark_bg");
    reveal_strlit("dark_fg");
    reveal_strlit("dark_foreground");
    reveal_strlit("darker_background");
    reveal_strlit("darker_bg");
    reveal_strlit("fg");
    reveal_strlit("foreground");
    reveal_strlit("light_fg");
    reveal_strlit("light_foreground");
    reveal_strlit("lighter_background");
    reveal_strlit("lighter_bg");
    reveal_strlit("theme_type");
    assert("bg"@.len() == 2);
    assert("background"@.len() == 10);
    assert("dark_background"@.len() == 15);
    assert("dark_bg"@.len() == 7);
    assert("darker_background"@.len() == 17);
    assert("darker_bg"@.len() == 9);
    assert("lighter_background"@.len() == 18);
    assert("lighter_bg"@.len() == 10);
    assert("foreground"@.len() == 10);
    assert("bg"@[0] == 'b');
    assert("fg"@[0] == 'f');
    assert("dark_foreground"@.len() == 15);
    assert("dark_fg"@.len() == 7);
    assert("light_foreground"@.len() == 16);
    assert("light_fg"@.len() == 8);
    assert("bright_foreground"@.len() == 17);
    assert("bright_fg"@.len() == 9);
    assert("theme_type"@.len() == 10);
    assert("background"@[0] == 'b');
    assert("theme_type"@[0] == 't');
    assert("fg"@.len() == 2);
    assert("dark_bg"@[5] == 'b');
    assert("dark_fg"@[5] == 'f');
    assert("darker_bg"@[0] == 'd');
    assert("bright_fg"@[0] == 'b');
    assert("lighter_bg"@[0] == 'l');
    assert("foreground"@[0] == 'f');
}

/// After resolution every legacy short name carries its canonical name's
/// value: `bg` mirrors `background`, and likewise `dark_bg`, `darker_bg`,
/// `lighter_bg`, `fg`, `dark_fg`, `light_fg`, `bright_fg`.
pub proof fn law_legacy_names_mirror_canonical(text: Seq<char>, marker: bool, canonical: Seq<char>, legacy: Seq<char>)
    requires
        legacy_pair(canonical, legacy),
    ensures
        raw(resolved(text, marker).entries, canonical) matches Some(v) ==> raw(resolved(text, marker).entries, legacy) == Some(v),
{
    lemma_legacy_names_distinct();
    reveal(cascade);
    reveal(stage_backprop);
}

/// A canonical name and its legacy short name.
pub open spec fn legacy_pair(canonical: Seq<char>, legacy: Seq<char>) -> bool {
    ||| canonical == "background"@ && legacy == "bg"@
    ||| canonical == "dark_background"@ && legacy == "dark_bg"@
    ||| canonical == "darker_background"@ && legacy == "darker_bg"@
    ||| canonical == "lighter_background"@ && legacy == "lighter_bg"@
    ||| canonical == "foreground"@ && legacy == "fg"@
    ||| canonical == "dark_foreground"@ && legacy == "dark_fg"@
    ||| canonical == "light_foreground"@ && legacy == "light_fg"@
    ||| canonical == "bright_foreground"@ && legacy == "bright_fg"@
}

proof fn lemma_add_lines_push(m: Map<Seq<char>, Seq<char>>, ls: Seq<Seq<char>>, l: Seq<char>)
    ensures
        add_lines(m, ls.push(l)) == add_line(add_lines(m, ls), l),
    decreases ls.len(),
{
    reveal_with_fuel(add_lines, 2);
    assert(ls.push(l)[0] == if ls.len() == 0 { l } else { ls[0] });
    if ls.len() == 0 {
        assert(ls.push(l).drop_first() =~= Seq::<Seq<char>>::empty());
    } else {
        assert(ls.push(l).drop_first() =~= ls.drop_first().push(l));
        lemma_add_lines_push(add_line(m, ls[0]), ls.drop_first(), l);
    }
}

/// In `colors.toml` the last definition wins: a valid `key = value` line
/// sets its key whatever came before it, and a line that fails the filters
/// changes nothing.
pub proof fn law_last_definition_wins(ls: Seq<Seq<char>>, l: Seq<char>)
    ensures
        parse_line(l) matches Some((k, v)) ==> add_lines(Map::empty(), ls.push(l)).contains_key(k)
            && add_lines(Map::empty(), ls.push(l))[k] == v,
        parse_line(l) is None ==> add_lines(Map::empty(), ls.push(l)) == add_lines(Map::empty(), ls),
{
    lemma_add_lines_push(Map::empty(), ls, l);
}

proof fn lemma_fill_present(m: Map<Seq<char>, Seq<char>>, key: Seq<char>, srcs: Seq<Seq<char>>, k: Seq<char>)
    requires
        raw(m, k) is Some,
    ensures
        raw(fill(m, key, srcs), k) == raw(m, k),
{
    reveal(fill);
}

proof fn lemma_legacy_preserves(m: Map<Seq<char>, Seq<char>>, k: Seq<char>)
    requires
        raw(m, k) is Some,
    ensures
        raw(stage_legacy(m), k) is Some,
        raw(stage_legacy(m), k) == raw(m, k),
{
    reveal(stage_legacy);
    let m1 = alias(m, "background"@, "bg"@);
    lemma_fill_present(m, "background"@, seq!["bg"@], k);
    let m2 = alias(m1, "dark_background"@, "dark_bg"@);
    lemma_fill_present(m1, "dark_background"@, seq!["dark_bg"@], k);
    let m3 = alias(m2, "darker_background"@, "darker_bg"@);
    lemma_fill_present(m2, "darker_background"@, seq!["darker_bg"@], k);
    let m4 = alias(m3, "lighter_background"@, "lighter_bg"@);
    lemma_fill_present(m3, "lighter_background"@, seq!["lighter_bg"@], k);
    let m5 = alias(m4, "foreground"@, "fg"@);
    lemma_fill_present(m4, "foreground"@, seq!["fg"@], k);
    let m6 = alias(m5, "dark_foreground"@, "dark_fg"@);
    lemma_fill_present(m5, "dark_foreground"@, seq!["dark_fg"@], k);
    let m7 = alias(m6, "light_foreground"@, "light_fg"@);
    lemma_fill_present(m6, "light_foreground"@, seq!["light_fg"@], k);
    let m8 = alias(m7, "bright_foreground"@, "bright_fg"@);
    lemma_fill_present(m7, "bright_foreground"@, seq!["bright_fg"@], k);
    assert(stage_legacy(m) == m8);
}

proof fn lemma_seed_preserves(m: Map<Seq<char>, Seq<char>>, k: Seq<char>)
    requires
        raw(m, k) is Some,
    ensures
        raw(stage_seed(m), k) is Some,
        k != "color0"@ && k != "color7"@ ==> raw(stage_seed(m), k) == raw(m, k),
{
    reveal(stage_seed);
    let m1 = alias(m, "background"@, "color0"@);
    lemma_fill_present(m, "background"@, seq!["color0"@], k);
    let m2 = alias(m1, "foreground"@, "color7"@);
    lemma_fill_present(m1, "foreground"@, seq!["color7"@], k);
    let m3 = copy(m2, "color0"@, "background"@);
    assert(raw(m3, k) is Some);
    assert(k != "color0"@ ==> raw(m3, k) == raw(m2, k));
    let m4 = copy(m3, "color7"@, "foreground"@);
    assert(raw(m4, k) is Some);
    assert(k != "color7"@ ==> raw(m4, k) == raw(m3, k));
    assert(stage_seed(m) == m4);
}

proof fn lemma_semantic_preserves(m: Map<Seq<char>, Seq<char>>, k: Seq<char>)
    requires
        raw(m, k) is Some,
    ensures
        raw(stage_semantic(m), k) is Some,
        raw(stage_semantic(m), k) == raw(m, k),
{
    reveal(stage_semantic);
    let m1 = alias(m, "red"@, "color1"@);
    lemma_fill_present(m, "red"@, seq!["color1"@], k);
    let m2 = alias(m1, "green"@, "color2"@);
    lemma_fill_present(m1, "green"@, seq!["color2"@], k);
    let m3 = alias(m2, "yellow"@, "color3"@);
    lemma_fill_present(m2, "yellow"@, seq!["color3"@], k);
    let m4 = alias(m3, "blue"@, "color4"@);
    lemma_fill_present(m3, "blue"@, seq!["color4"@], k);
    let m5 = alias(m4, "magenta"@, "color5"@);
    lemma_fill_present(m4, "magenta"@, seq!["color5"@], k);
    let m6 = alias(m5, "cyan"@, "color6"@);
    lemma_fill_present(m5, "cyan"@, seq!["color6"@], k);
    let m7 = alias(m6, "bright_red"@, "color9"@);
    lemma_fill_present(m6, "bright_red"@, seq!["color9"@], k);
    let m8 = alias(m7, "bright_green"@, "color10"@);
    lemma_fill_present(m7, "bright_green"@, seq!["color10"@], k);
    let m9 = alias(m8, "bright_yellow"@, "color11"@);
    lemma_fill_present(m8, "bright_yellow"@, seq!["color11"@], k);
    let m10 = alias(m9, "bright_blue"@, "color12"@);
    lemma_fill_present(m9, "bright_blue"@, seq!["color12"@], k);
    let m11 = alias(m10, "bright_magenta"@, "color13"@);
    lemma_fill_present(m10, "bright_magenta"@, seq!["color13"@], k);
    let m12 = alias(m11, "bright_cyan"@, "color14"@);
    lemma_fill_present(m11, "bright_cyan"@, seq!["color14"@], k);
    let m13 = alias(m12, "magenta"@, "purple"@);
    lemma_fill_present(m12, "magenta"@, seq!["purple"@], k);
    let m14 = alias(m13, "bright_magenta"@, "bright_purple"@);
    lemma_fill_present(m13, "bright_magenta"@, seq!["bright_purple"@], k);
    assert(stage_semantic(m) == m14);
}

proof fn lemma_ramp_preserves(m: Map<Seq<char>, Seq<char>>, k: Seq<char>)
    requires
        raw(m, k) is Some,
    ensures
        raw(stage_ramp(m), k) is Some,
        k != "cursor"@ ==> raw(stage_ramp(m), k) == raw(m, k),
{
    reveal(stage_ramp);
    let m1 = fill(m, "light_foreground"@, seq!["color7"@, "foreground"@]);
    lemma_fill_present(m, "light_foreground"@, seq!["color7"@, "foreground"@], k);
    let m2 = fill(m1, "bright_foreground"@, seq!["color15"@, "foreground"@]);
    lemma_fill_present(m1, "bright_foreground"@, seq!["color15"@, "foreground"@], k);
    let m3 = copy(m2, "cursor"@, "bright_foreground"@);
    assert(raw(m3, k) is Some);
    assert(k != "cursor"@ ==> raw(m3, k) == raw(m2, k));
    let m4 = fill(m3, "lighter_background"@, seq!["color0"@, "background"@]);
    lemma_fill_present(m3, "lighter_background"@, seq!["color0"@, "background"@], k);
    let m5 = fill(m4, "dark_foreground"@, seq!["color8"@, "foreground"@]);
    lemma_fill_present(m4, "dark_foreground"@, seq!["color8"@, "foreground"@], k);
    let m6 = fill(m5, "muted"@, seq!["color8"@, "dark_foreground"@]);
    lemma_fill_present(m5, "muted"@, seq!["color8"@, "dark_foreground"@], k);
    let m7 = fill(m6, "selection"@, seq!["selection_background"@, "color8"@, "color0"@, "background"@],);
    lemma_fill_present(m6, "selection"@, seq!["selection_background"@, "color8"@, "color0"@, "background"@], k);
    let m8 = alias(m7, "selection_background"@, "selection"@);
    lemma_fill_present(m7, "selection_background"@, seq!["selection"@], k);
    let m9 = alias(m8, "selection_foreground"@, "bright_foreground"@);
    lemma_fill_present(m8, "selection_foreground"@, seq!["bright_foreground"@], k);
    let m10 = alias(m9, "orange"@, "yellow"@);
    lemma_fill_present(m9, "orange"@, seq!["yellow"@], k);
    let m11 = shade(m10, "brown"@, "orange"@, black(), 1, 2);
    assert(raw(m11, k) == raw(m10, k));
    assert(stage_ramp(m) == m11);
}

proof fn lemma_shades_preserves(m: Map<Seq<char>, Seq<char>>, k: Seq<char>)
    requires
        raw(m, k) is Some,
    ensures
        raw(stage_shades(m), k) is Some,
        raw(stage_shades(m), k) == raw(m, k),
{
    reveal(stage_shades);
    let m1 = shade(m, "dark_background"@, "background"@, black(), 1, 4);
    assert(raw(m1, k) == raw(m, k));
    let m2 = shade(m1, "darker_background"@, "background"@, black(), 1, 2);
    assert(raw(m2, k) == raw(m1, k));
    let m3 = shade(m2, "bright_red"@, "red"@, white(), 1, 5);
    assert(raw(m3, k) == raw(m2, k));
    let m4 = shade(m3, "bright_yellow"@, "yellow"@, white(), 1, 5);
    assert(raw(m4, k) == raw(m3, k));
    let m5 = shade(m4, "bright_green"@, "green"@, white(), 1, 5);
    assert(raw(m5, k) == raw(m4, k));
    let m6 = shade(m5, "bright_cyan"@, "cyan"@, white(), 1, 5);
    assert(raw(m6, k) == raw(m5, k));
    let m7 = shade(m6, "bright_blue"@, "blue"@, white(), 1, 5);
    assert(raw(m7, k) == raw(m6, k));
    let m8 = shade(m7, "bright_magenta"@, "magenta"@, white(), 1, 5);
    assert(raw(m8, k) == raw(m7, k));
    let m9 = alias(m8, "purple"@, "magenta"@);
    lemma_fill_present(m8, "purple"@, seq!["magenta"@], k);
    let m10 = alias(m9, "bright_purple"@, "bright_magenta"@);
    lemma_fill_present(m9, "bright_purple"@, seq!["bright_magenta"@], k);
    assert(stage_shades(m) == m10);
}

proof fn lemma_ansi_preserves(m: Map<Seq<char>, Seq<char>>, k: Seq<char>)
    requires
        raw(m, k) is Some,
    ensures
        raw(stage_ansi(m), k) is Some,
        raw(stage_ansi(m), k) == raw(m, k),
{
    reveal(stage_ansi);
    let m1 = alias(m, "color0"@, "background"@);
    lemma_fill_present(m, "color0"@, seq!["background"@], k);
    let m2 = alias(m1, "color1"@, "red"@);
    lemma_fill_present(m1, "color1"@, seq!["red"@], k);
    let m3 = alias(m2, "color2"@, "green"@);
    lemma_fill_present(m2, "color2"@, seq!["green"@], k);
    let m4 = alias(m3, "color3"@, "yellow"@);
    lemma_fill_present(m3, "color3"@, seq!["yellow"@], k);
    let m5 = alias(m4, "color4"@, "blue"@);
    lemma_fill_present(m4, "color4"@, seq!["blue"@], k);
    let m6 = alias(m5, "color5"@, "magenta"@);
    lemma_fill_present(m5, "color5"@, seq!["magenta"@], k);
    let m7 = alias(m6, "color6"@, "cyan"@);
    lemma_fill_present(m6, "color6"@, seq!["cyan"@], k);
    let m8 = alias(m7, "color7"@, "foreground"@);
    lemma_fill_present(m7, "color7"@, seq!["foreground"@], k);
    let m9 = alias(m8, "color8"@, "muted"@);
    lemma_fill_present(m8, "color8"@, seq!["muted"@], k);
    let m10 = alias(m9, "color9"@, "bright_red"@);
    lemma_fill_present(m9, "color9"@, seq!["bright_red"@], k);
    let m11 = alias(m10, "color10"@, "bright_green"@);
    lemma_fill_present(m10, "color10"@, seq!["bright_green"@], k);
    let m12 = alias(m11, "color11"@, "bright_yellow"@);
    lemma_fill_present(m11, "color11"@, seq!["bright_yellow"@], k);
    let m13 = alias(m12, "color12"@, "bright_blue"@);
    lemma_fill_present(m12, "color12"@, seq!["bright_blue"@], k);
    let m14 = alias(m13, "color13"@, "bright_magenta"@);
    lemma_fill_present(m13, "color13"@, seq!["bright_magenta"@], k);
    let m15 = alias(m14, "color14"@, "bright_cyan"@);
    lemma_fill_present(m14, "color14"@, seq!["bright_cyan"@], k);
    let m16 = alias(m15, "color15"@, "bright_foreground"@);
    lemma_fill_present(m15, "color15"@, seq!["bright_foreground"@], k);
    assert(stage_ansi(m) == m16);
}

proof fn lemma_backprop_preserves(m: Map<Seq<char>, Seq<char>>, k: Seq<char>)
    requires
        raw(m, k) is Some,
    ensures
        raw(stage_backprop(m), k) is Some,
        k != "bg"@ && k != "dark_bg"@ && k != "darker_bg"@ && k != "lighter_bg"@ && k != "fg"@ && k != "dark_fg"@ && k != "light_fg"@ && k != "bright_fg"@ ==> raw(stage_backprop(m), k) == raw(m, k),
{
    reveal(stage_backprop);
    let m1 = copy(m, "bg"@, "background"@);
    assert(raw(m1, k) is Some);
    assert(k != "bg"@ ==> raw(m1, k) == raw(m, k));
    let m2 = copy(m1, "dark_bg"@, "dark_background"@);
    assert(raw(m2, k) is Some);
    assert(k != "dark_bg"@ ==> raw(m2, k) == raw(m1, k));
    let m3 = copy(m2, "darker_bg"@, "darker_background"@);
    assert(raw(m3, k) is Some);
    assert(k != "darker_bg"@ ==> raw(m3, k) == raw(m2, k));
    let m4 = copy(m3, "lighter_bg"@, "lighter_background"@);
    assert(raw(m4, k) is Some);
    assert(k != "lighter_bg"@ ==> raw(m4, k) == raw(m3, k));
    let m5 = copy(m4, "fg"@, "foreground"@);
    assert(raw(m5, k) is Some);
    assert(k != "fg"@ ==> raw(m5, k) == raw(m4, k));
    let m6 = copy(m5, "dark_fg"@, "dark_foreground"@);
    assert(raw(m6, k) is Some);
    assert(k != "dark_fg"@ ==> raw(m6, k) == raw(m5, k));
    let m7 = copy(m6, "light_fg"@, "light_foreground"@);
    assert(raw(m7, k) is Some);
    assert(k != "light_fg"@ ==> raw(m7, k) == raw(m6, k));
    let m8 = copy(m7, "bright_fg"@, "bright_foreground"@);
    assert(raw(m8, k) is Some);
    assert(k != "bright_fg"@ ==> raw(m8, k) == raw(m7, k));
    assert(stage_backprop(m) == m8);
}

/// The cascade only adds: every key present in the file is present after
/// resolution, and keeps the file's value unless it is one of the keys the
/// cascade overwrites (`color0`, `color7`, `cursor`, `theme_type` and the
/// legacy short names `bg`, `dark_bg`, `darker_bg`, `lighter_bg`, `fg`,
/// `dark_fg`, `light_fg`, `bright_fg`).
pub proof fn law_cascade_keeps_present_keys(text: Seq<char>, marker: bool, k: Seq<char>)
    requires
        raw(colors_map(text), k) is Some,
    ensures
        raw(resolved(text, marker).entries, k) is Some,
        k != "color0"@ && k != "color7"@ && k != "cursor"@ && k != "theme_type"@ && k != "bg"@ && k
            != "dark_bg"@ && k != "darker_bg"@ && k != "lighter_bg"@ && k != "fg"@ && k != "dark_fg"@
            && k != "light_fg"@ && k != "bright_fg"@ ==> raw(resolved(text, marker).entries, k) == raw(
            colors_map(text),
            k,
        ),
{
    let m0 = colors_map(text);
    let m1 = stage_legacy(m0);
    let m2 = stage_seed(m1);
    let m3 = stage_semantic(m2);
    let m4 = stage_ramp(m3);
    let m5 = stage_shades(m4);
    let m6 = stage_ansi(m5);
    let m7 = stage_backprop(m6);
    reveal(cascade);
    assert(cascade(m0) == m7);
    lemma_legacy_preserves(m0, k);
    lemma_seed_preserves(m1, k);
    lemma_semantic_preserves(m2, k);
    lemma_ramp_preserves(m3, k);
    lemma_shades_preserves(m4, k);
    lemma_ansi_preserves(m5, k);
    lemma_backprop_preserves(m6, k);
    let mode = resolved(text, marker).mode;
    assert(mode_name(mode).len() > 0);
}

/// An ANSI slot and the semantic name that stands for it: `red`, `green`,
/// `yellow`, `blue`, `magenta`, `cyan` for `color1` to `color6`, and their
/// `bright_` forms for `color9` to `color14`.
spec fn ansi_semantic_pair(name: Seq<char>, slot: Seq<char>) -> bool {
    ||| name == "red"@ && slot == "color1"@
    ||| name == "green"@ && slot == "color2"@
    ||| name == "yellow"@ && slot == "color3"@
    ||| name == "blue"@ && slot == "color4"@
    ||| name == "magenta"@ && slot == "color5"@
    ||| name == "cyan"@ && slot == "color6"@
    ||| name == "bright_red"@ && slot == "color9"@
    ||| name == "bright_green"@ && slot == "color10"@
    ||| name == "bright_yellow"@ && slot == "color11"@
    ||| name == "bright_blue"@ && slot == "color12"@
    ||| name == "bright_magenta"@ && slot == "color13"@
    ||| name == "bright_cyan"@ && slot == "color14"@
}

/// One `alias` step seen from a semantic name and its slot.
proof fn lemma_alias_step(
    m: Map<Seq<char>, Seq<char>>,
    key: Seq<char>,
    src: Seq<char>,
    name: Seq<char>,
    slot: Seq<char>,
)
    requires
        key != slot,
    ensures
        raw(alias(m, key, src), slot) == raw(m, slot),
        key != name ==> raw(alias(m, key, src), name) == raw(m, name),
        raw(m, name) is Some ==> raw(alias(m, key, src), name) == raw(m, name),
        key == name && src == slot && raw(m, name) is None && raw(m, slot) is Some ==> raw(
            alias(m, key, src),
            name,
        ) == raw(m, slot),
        key == name && raw(m, src) is None ==> raw(alias(m, key, src), name) == raw(m, name),
{
    reveal(fill);
    reveal_with_fuel(first_of, 2);
}

proof fn lemma_semantic_fills(m: Map<Seq<char>, Seq<char>>, name: Seq<char>, slot: Seq<char>)
    requires
        ansi_semantic_pair(name, slot),
        raw(m, name) is None,
        raw(m, slot) is Some,
    ensures
        raw(stage_semantic(m), name) == raw(m, slot),
{
    lemma_semantic_pairs_distinct_1();
    lemma_semantic_pairs_distinct_2();
    lemma_semantic_pairs_distinct_3();
    lemma_semantic_pairs_distinct_4();
    lemma_semantic_pairs_distinct_5();
    lemma_semantic_pairs_distinct_6();
    reveal(stage_semantic);
    let m1 = alias(m, "red"@, "color1"@);
    lemma_alias_step(m, "red"@, "color1"@, name, slot);
    let m2 = alias(m1, "green"@, "color2"@);
    lemma_alias_step(m1, "green"@, "color2"@, name, slot);
    let m3 = alias(m2, "yellow"@, "color3"@);
    lemma_alias_step(m2, "yellow"@, "color3"@, name, slot);
    let m4 = alias(m3, "blue"@, "color4"@);
    lemma_alias_step(m3, "blue"@, "color4"@, name, slot);
    let m5 = alias(m4, "magenta"@, "color5"@);
    lemma_alias_step(m4, "magenta"@, "color5"@, name, slot);
    let m6 = alias(m5, "cyan"@, "color6"@);
    lemma_alias_step(m5, "cyan"@, "color6"@, name, slot);
    let m7 = alias(m6, "bright_red"@, "color9"@);
    lemma_alias_step(m6, "bright_red"@, "color9"@, name, slot);
    let m8 = alias(m7, "bright_green"@, "color10"@);
    lemma_alias_step(m7, "bright_green"@, "color10"@, name, slot);
    let m9 = alias(m8, "bright_yellow"@, "color11"@);
    lemma_alias_step(m8, "bright_yellow"@, "color11"@, name, slot);
    let m10 = alias(m9, "bright_blue"@, "color12"@);
    lemma_alias_step(m9, "bright_blue"@, "color12"@, name, slot);
    let m11 = alias(m10, "bright_magenta"@, "color13"@);
    lemma_alias_step(m10, "bright_magenta"@, "color13"@, name, slot);
    let m12 = alias(m11, "bright_cyan"@, "color14"@);
    lemma_alias_step(m11, "bright_cyan"@, "color14"@, name, slot);
    let m13 = alias(m12, "magenta"@, "purple"@);
    lemma_alias_step(m12, "magenta"@, "purple"@, name, slot);
    let m14 = alias(m13, "bright_magenta"@, "bright_purple"@);
    lemma_alias_step(m13, "bright_magenta"@, "bright_purple"@, name, slot);
    assert(stage_semantic(m) == m14);
}

/// A theme that sets an ANSI slot but not the semantic name that stands for
/// it gets that name from the slot: `red` is `color1`, `green` `color2`,
/// `yellow` `color3`, `blue` `color4`, `magenta` `color5`, `cyan` `color6`,
/// and `bright_red` to `bright_cyan` are `color9` to `color14`.
pub proof fn law_semantic_names_follow_ansi_slots(
    text: Seq<char>,
    marker: bool,
    name: Seq<char>,
    slot: Seq<char>,
)
    requires
        (name == "red"@ && slot == "color1"@)
            || (name == "green"@ && slot == "color2"@)
            || (name == "yellow"@ && slot == "color3"@)
            || (name == "blue"@ && slot == "color4"@)
            || (name == "magenta"@ && slot == "color5"@)
            || (name == "cyan"@ && slot == "color6"@)
            || (name == "bright_red"@ && slot == "color9"@)
            || (name == "bright_green"@ && slot == "color10"@)
            || (name == "bright_yellow"@ && slot == "color11"@)
            || (name == "bright_blue"@ && slot == "color12"@)
            || (name == "bright_magenta"@ && slot == "color13"@)
            || (name == "bright_cyan"@ && slot == "color14"@),
        raw(colors_map(text), name) is None,
        raw(colors_map(text), slot) is Some,
    ensures
        raw(resolved(text, marker).entries, name) == raw(colors_map(text), slot),
{
    let m0 = colors_map(text);
    let m1 = stage_legacy(m0);
    let m2 = stage_seed(m1);
    let m3 = stage_semantic(m2);
    let m4 = stage_ramp(m3);
    let m5 = stage_shades(m4);
    let m6 = stage_ansi(m5);
    let m7 = stage_backprop(m6);
    reveal(cascade);
    assert(cascade(m0) == m7);
    lemma_semantic_pairs_distinct_1();
    lemma_semantic_pairs_distinct_2();
    lemma_semantic_pairs_distinct_3();
    lemma_semantic_pairs_distinct_4();
    lemma_semantic_pairs_distinct_5();
    lemma_semantic_pairs_distinct_6();
    lemma_legacy_keeps(m0, name);
    lemma_legacy_keeps(m0, slot);
    lemma_seed_keeps(m1, name);
    lemma_seed_keeps(m1, slot);
    lemma_semantic_fills(m2, name, slot);
    lemma_ramp_preserves(m3, name);
    lemma_shades_preserves(m4, name);
    lemma_ansi_preserves(m5, name);
    lemma_backprop_preserves(m6, name);
}

/// Without a `mode` or `theme_type` key and without a `light.mode` marker,
/// the mode is dark unless the background is `#` and six hex digits.
pub proof fn law_mode_defaults_to_dark(text: Seq<char>)
    requires
        raw(colors_map(text), "mode"@) is None,
        raw(colors_map(text), "theme_type"@) is None,
    ensures
        !(raw(resolved(text, false).entries, "background"@) matches Some(bg) && bg.len() == 7 && bg[0]
            == '#' && forall|i: int|
            1 <= i < 7 ==> ('0' <= #[trigger] bg[i] <= '9') || ('a' <= bg[i] <= 'f') || ('A' <= bg[i]
                <= 'F')) ==> resolved(text, false).mode == Mode::Dark,
{
    let m0 = colors_map(text);
    let m = cascade(m0);
    lemma_cascade_keeps_mode_keys(m0);
    lemma_mode_keys_distinct();
    reveal_with_fuel(first_of, 3);
    assert(first_of(m, seq!["mode"@, "theme_type"@]) is None);
    if let Some(bg) = raw(m, "background"@) {
        assert(raw(resolved(text, false).entries, "background"@) == Some(bg));
        if strict_hex6(bg) {
            let h = bg.drop_first();
            assert forall|i: int| 1 <= i < 7 implies ('0' <= #[trigger] bg[i] <= '9') || ('a' <= bg[i]
                <= 'f') || ('A' <= bg[i] <= 'F') by {
                assert(is_hex(h[i - 1]));
            }
        }
    }
}

/// `magenta` and `bright_magenta` with their ANSI slots and the `purple`
/// names they fall back to.
spec fn purple_fallback(name: Seq<char>, slot: Seq<char>, alt: Seq<char>) -> bool {
    ||| name == "magenta"@ && slot == "color5"@ && alt == "purple"@
    ||| name == "bright_magenta"@ && slot == "color13"@ && alt == "bright_purple"@
}

proof fn lemma_purple_names_distinct()
    ensures
        "purple"@ != "bright_purple"@,
        "purple"@ != "background"@,
        "purple"@ != "dark_background"@,
        "purple"@ != "darker_background"@,
        "purple"@ != "lighter_background"@,
        "purple"@ != "foreground"@,
        "purple"@ != "dark_foreground"@,
        "purple"@ != "light_foreground"@,
        "purple"@ != "bright_foreground"@,
        "purple"@ != "color0"@,
        "purple"@ != "color7"@,
        "bright_purple"@ != "background"@,
        "bright_purple"@ != "dark_background"@,
        "bright_purple"@ != "darker_background"@,
        "bright_purple"@ != "lighter_background"@,
        "bright_purple"@ != "foreground"@,
        "bright_purple"@ != "dark_foreground"@,
        "bright_purple"@ != "light_foreground"@,
        "bright_purple"@ != "bright_foreground"@,
        "bright_purple"@ != "color0"@,
        "bright_purple"@ != "color7"@,
{
    reveal_strlit("purple");
    reveal_strlit("bright_purple");
    reveal_strlit("background");
    reveal_strlit("dark_background");
    reveal_strlit("darker_background");
    reveal_strlit("lighter_background");
    reveal_strlit("foreground");
    reveal_strlit("dark_foreground");
    reveal_strlit("light_foreground");
    reveal_strlit("bright_foreground");
    reveal_strlit("color0");
    reveal_strlit("color7");
    assert("purple"@.len() == 6);
    assert("bright_purple"@.len() == 13);
    assert("purple"@[0] == 'p');
    assert("bright_purple"@[0] == 'b');
    assert("color0"@[0] == 'c');
    assert("color7"@[0] == 'c');
    assert("background"@.len() == 10);
    assert("dark_background"@.len() == 15);
    assert("darker_background"@.len() == 17);
    assert("lighter_background"@.len() == 18);
    assert("foreground"@.len() == 10);
    assert("dark_foreground"@.len() == 15);
    assert("light_foreground"@.len() == 16);
    assert("bright_foreground"@.len() == 17);
}

proof fn lemma_semantic_purple(m: Map<Seq<char>, Seq<char>>, name: Seq<char>, slot: Seq<char>, alt: Seq<char>)
    requires
        purple_fallback(name, slot, alt),
        raw(m, name) is None,
        raw(m, slot) is None,
        raw(m, alt) is Some,
    ensures
        raw(stage_semantic(m), name) == raw(m, alt),
{
    lemma_semantic_pairs_distinct_1();
    lemma_semantic_pairs_distinct_2();
    lemma_semantic_pairs_distinct_3();
    lemma_semantic_pairs_distinct_4();
    lemma_semantic_pairs_distinct_5();
    lemma_semantic_pairs_distinct_6();
    lemma_purple_names_distinct();
    reveal(stage_semantic);
    let m1 = alias(m, "red"@, "color1"@);
    lemma_alias_step(m, "red"@, "color1"@, name, alt);
    lemma_alias_step(m, "red"@, "color1"@, name, slot);
    let m2 = alias(m1, "green"@, "color2"@);
    lemma_alias_step(m1, "green"@, "color2"@, name, alt);
    lemma_alias_step(m1, "green"@, "color2"@, name, slot);
    let m3 = alias(m2, "yellow"@, "color3"@);
    lemma_alias_step(m2, "yellow"@, "color3"@, name, alt);
    lemma_alias_step(m2, "yellow"@, "color3"@, name, slot);
    let m4 = alias(m3, "blue"@, "color4"@);
    lemma_alias_step(m3, "blue"@, "color4"@, name, alt);
    lemma_alias_step(m3, "blue"@, "color4"@, name, slot);
    let m5 = alias(m4, "magenta"@, "color5"@);
    lemma_alias_step(m4, "magenta"@, "color5"@, name, alt);
    lemma_alias_step(m4, "magenta"@, "color5"@, name, slot);
    let m6 = alias(m5, "cyan"@, "color6"@);
    lemma_alias_step(m5, "cyan"@, "color6"@, name, alt);
    lemma_alias_step(m5, "cyan"@, "color6"@, name, slot);
    let m7 = alias(m6, "bright_red"@, "color9"@);
    lemma_alias_step(m6, "bright_red"@, "color9"@, name, alt);
    lemma_alias_step(m6, "bright_red"@, "color9"@, name, slot);
    let m8 = alias(m7, "bright_green"@, "color10"@);
    lemma_alias_step(m7, "bright_green"@, "color10"@, name, alt);
    lemma_alias_step(m7, "bright_green"@, "color10"@, name, slot);
    let m9 = alias(m8, "bright_yellow"@, "color11"@);
    lemma_alias_step(m8, "bright_yellow"@, "color11"@, name, alt);
    lemma_alias_step(m8, "bright_yellow"@, "color11"@, name, slot);
    let m10 = alias(m9, "bright_blue"@, "color12"@);
    lemma_alias_step(m9, "bright_blue"@, "color12"@, name, alt);
    lemma_alias_step(m9, "bright_blue"@, "color12"@, name, slot);
    let m11 = alias(m10, "bright_magenta"@, "color13"@);
    lemma_alias_step(m10, "bright_magenta"@, "color13"@, name, alt);
    lemma_alias_step(m10, "bright_magenta"@, "color13"@, name, slot);
    let m12 = alias(m11, "bright_cyan"@, "color14"@);
    lemma_alias_step(m11, "bright_cyan"@, "color14"@, name, alt);
    lemma_alias_step(m11, "bright_cyan"@, "color14"@, name, slot);
    let m13 = alias(m12, "magenta"@, "purple"@);
    lemma_alias_step(m12, "magenta"@, "purple"@, name, alt);
    let m14 = alias(m13, "bright_magenta"@, "bright_purple"@);
    lemma_alias_step(m13, "bright_magenta"@, "bright_purple"@, name, alt);
    assert(stage_semantic(m) == m14);
}

/// `magenta` falls back to `purple` when neither it nor `color5` is set,
/// and `bright_magenta` to `bright_purple` when neither it nor `color13` is.
pub proof fn law_magenta_falls_back_to_purple(
    text: Seq<char>,
    marker: bool,
    name: Seq<char>,
    slot: Seq<char>,
    alt: Seq<char>,
)
    requires
        (name == "magenta"@ && slot == "color5"@ && alt == "purple"@)
            || (name == "bright_magenta"@ && slot == "color13"@ && alt == "bright_purple"@),
        raw(colors_map(text), name) is None,
        raw(colors_map(text), slot) is None,
        raw(colors_map(text), alt) is Some,
    ensures
        raw(resolved(text, marker).entries, name) == raw(colors_map(text), alt),
{
    let m0 = colors_map(text);
    let m1 = stage_legacy(m0);
    let m2 = stage_seed(m1);
    let m3 = stage_semantic(m2);
    let m4 = stage_ramp(m3);
    let m5 = stage_shades(m4);
    let m6 = stage_ansi(m5);
    let m7 = stage_backprop(m6);
    reveal(cascade);
    assert(cascade(m0) == m7);
    lemma_semantic_pairs_distinct_1();
    lemma_semantic_pairs_distinct_2();
    lemma_semantic_pairs_distinct_3();
    lemma_semantic_pairs_distinct_4();
    lemma_semantic_pairs_distinct_5();
    lemma_semantic_pairs_distinct_6();
    lemma_purple_names_distinct();
    lemma_legacy_keeps(m0, name);
    lemma_legacy_keeps(m0, slot);
    lemma_legacy_keeps(m0, alt);
    lemma_seed_keeps(m1, name);
    lemma_seed_keeps(m1, slot);
    lemma_seed_keeps(m1, alt);
    lemma_semantic_purple(m2, name, slot, alt);
    lemma_ramp_preserves(m3, name);
    lemma_shades_preserves(m4, name);
    lemma_ansi_preserves(m5, name);
    lemma_backprop_preserves(m6, name);
}

proof fn lemma_ansi_fills(m: Map<Seq<char>, Seq<char>>, name: Seq<char>, slot: Seq<char>)
    requires
        ansi_semantic_pair(name, slot),
        raw(m, slot) is None,
        raw(m, name) is Some,
    ensures
        raw(stage_ansi(m), slot) == raw(m, name),
{
    lemma_semantic_pairs_distinct_1();
    lemma_semantic_pairs_distinct_2();
    lemma_semantic_pairs_distinct_3();
    lemma_semantic_pairs_distinct_4();
    lemma_semantic_pairs_distinct_5();
    lemma_semantic_pairs_distinct_6();
    reveal(stage_ansi);
    let m1 = alias(m, "color0"@, "background"@);
    lemma_alias_step(m, "color0"@, "background"@, slot, name);
    let m2 = alias(m1, "color1"@, "red"@);
    lemma_alias_step(m1, "color1"@, "red"@, slot, name);
    let m3 = alias(m2, "color2"@, "green"@);
    lemma_alias_step(m2, "color2"@, "green"@, slot, name);
    let m4 = alias(m3, "color3"@, "yellow"@);
    lemma_alias_step(m3, "color3"@, "yellow"@, slot, name);
    let m5 = alias(m4, "color4"@, "blue"@);
    lemma_alias_step(m4, "color4"@, "blue"@, slot, name);
    let m6 = alias(m5, "color5"@, "magenta"@);
    lemma_alias_step(m5, "color5"@, "magenta"@, slot, name);
    let m7 = alias(m6, "color6"@, "cyan"@);
    lemma_alias_step(m6, "color6"@, "cyan"@, slot, name);
    let m8 = alias(m7, "color7"@, "foreground"@);
    lemma_alias_step(m7, "color7"@, "foreground"@, slot, name);
    let m9 = alias(m8, "color8"@, "muted"@);
    lemma_alias_step(m8, "color8"@, "muted"@, slot, name);
    let m10 = alias(m9, "color9"@, "bright_red"@);
    lemma_alias_step(m9, "color9"@, "bright_red"@, slot, name);
    let m11 = alias(m10, "color10"@, "bright_green"@);
    lemma_alias_step(m10, "color10"@, "bright_green"@, slot, name);
    let m12 = alias(m11, "color11"@, "bright_yellow"@);
    lemma_alias_step(m11, "color11"@, "bright_yellow"@, slot, name);
    let m13 = alias(m12, "color12"@, "bright_blue"@);
    lemma_alias_step(m12, "color12"@, "bright_blue"@, slot, name);
    let m14 = alias(m13, "color13"@, "bright_magenta"@);
    lemma_alias_step(m13, "color13"@, "bright_magenta"@, slot, name);
    let m15 = alias(m14, "color14"@, "bright_cyan"@);
    lemma_alias_step(m14, "color14"@, "bright_cyan"@, slot, name);
    let m16 = alias(m15, "color15"@, "bright_foreground"@);
    lemma_alias_step(m15, "color15"@, "bright_foreground"@, slot, name);
    assert(stage_ansi(m) == m16);
}

/// The other way round: a theme that sets a semantic name but not its ANSI
/// slot gets the slot from the name, `color1` from `red` through `color6`
/// from `cyan` and `color9` to `color14` from `bright_red` to `bright_cyan`.
pub proof fn law_ansi_slots_follow_semantic_names(
    text: Seq<char>,
    marker: bool,
    name: Seq<char>,
    slot: Seq<char>,
)
    requires
        (name == "red"@ && slot == "color1"@)
            || (name == "green"@ && slot == "color2"@)
            || (name == "yellow"@ && slot == "color3"@)
            || (name == "blue"@ && slot == "color4"@)
            || (name == "magenta"@ && slot == "color5"@)
            || (name == "cyan"@ && slot == "color6"@)
            || (name == "bright_red"@ && slot == "color9"@)
            || (name == "bright_green"@ && slot == "color10"@)
            || (name == "bright_yellow"@ && slot == "color11"@)
            || (name == "bright_blue"@ && slot == "color12"@)
            || (name == "bright_magenta"@ && slot == "color13"@)
            || (name == "bright_cyan"@ && slot == "color14"@),
        raw(colors_map(text), slot) is None,
        raw(colors_map(text), name) is Some,
    ensures
        raw(resolved(text, marker).entries, slot) == raw(colors_map(text), name),
{
    let m0 = colors_map(text);
    let m1 = stage_legacy(m0);
    let m2 = stage_seed(m1);
    let m3 = stage_semantic(m2);
    let m4 = stage_ramp(m3);
    let m5 = stage_shades(m4);
    let m6 = stage_ansi(m5);
    let m7 = stage_backprop(m6);
    reveal(cascade);
    assert(cascade(m0) == m7);
    lemma_semantic_pairs_distinct_1();
    lemma_semantic_pairs_distinct_2();
    lemma_semantic_pairs_distinct_3();
    lemma_semantic_pairs_distinct_4();
    lemma_semantic_pairs_distinct_5();
    lemma_semantic_pairs_distinct_6();
    lemma_legacy_keeps(m0, slot);
    lemma_seed_keeps(m1, slot);
    lemma_semantic_keeps(m2, slot);
    lemma_ramp_keeps(m3, slot);
    lemma_shades_keeps(m4, slot);
    lemma_legacy_preserves(m0, name);
    lemma_seed_preserves(m1, name);
    lemma_semantic_preserves(m2, name);
    lemma_ramp_preserves(m3, name);
    lemma_shades_preserves(m4, name);
    lemma_ansi_fills(m5, name, slot);
    lemma_backprop_keeps(m6, slot);
}

proof fn lemma_semantic_pairs_distinct_1()
    ensures
        "red"@ != "background"@,
        "red"@ != "dark_background"@,
        "red"@ != "darker_background"@,
        "red"@ != "lighter_background"@,
        "red"@ != "foreground"@,
        "red"@ != "dark_foreground"@,
        "red"@ != "light_foreground"@,
        "red"@ != "bright_foreground"@,
        "red"@ != "color0"@,
        "red"@ != "color7"@,
        "red"@ != "green"@,
        "red"@ != "yellow"@,
        "red"@ != "blue"@,
        "red"@ != "magenta"@,
        "red"@ != "cyan"@,
        "red"@ != "bright_red"@,
        "red"@ != "bright_green"@,
        "red"@ != "bright_yellow"@,
        "red"@ != "bright_blue"@,
        "red"@ != "bright_magenta"@,
        "red"@ != "bright_cyan"@,
        "red"@ != "color1"@,
        "red"@ != "color2"@,
        "red"@ != "color3"@,
        "red"@ != "color4"@,
        "red"@ != "color5"@,
        "red"@ != "color6"@,
        "red"@ != "color9"@,
        "red"@ != "color10"@,
        "red"@ != "color11"@,
        "red"@ != "color12"@,
        "red"@ != "color13"@,
        "red"@ != "color14"@,
        "red"@ != "cursor"@,
        "red"@ != "theme_type"@,
        "red"@ != "bg"@,
        "red"@ != "dark_bg"@,
        "red"@ != "darker_bg"@,
        "red"@ != "lighter_bg"@,
        "red"@ != "fg"@,
        "red"@ != "dark_fg"@,
        "red"@ != "light_fg"@,
        "red"@ != "bright_fg"@,
        "red"@ != "muted"@,
        "red"@ != "selection"@,
        "red"@ != "selection_background"@,
        "red"@ != "selection_foreground"@,
        "red"@ != "orange"@,
        "red"@ != "brown"@,
        "red"@ != "purple"@,
        "red"@ != "bright_purple"@,
        "red"@ != "color8"@,
        "red"@ != "color15"@,
        "green"@ != "background"@,
        "green"@ != "dark_background"@,
        "green"@ != "darker_background"@,
        "green"@ != "lighter_background"@,
        "green"@ != "foreground"@,
        "green"@ != "dark_foreground"@,
        "green"@ != "light_foreground"@,
        "green"@ != "bright_foreground"@,
        "green"@ != "color0"@,
        "green"@ != "color7"@,
        "green"@ != "yellow"@,
        "green"@ != "blue"@,
        "green"@ != "magenta"@,
        "green"@ != "cyan"@,
        "green"@ != "bright_red"@,
        "green"@ != "bright_green"@,
        "green"@ != "bright_yellow"@,
        "green"@ != "bright_blue"@,
        "green"@ != "bright_magenta"@,
        "green"@ != "bright_cyan"@,
        "green"@ != "color1"@,
        "green"@ != "color2"@,
        "green"@ != "color3"@,
        "green"@ != "color4"@,
        "green"@ != "color5"@,
        "green"@ != "color6"@,
        "green"@ != "color9"@,
        "green"@ != "color10"@,
        "green"@ != "color11"@,
        "green"@ != "color12"@,
        "green"@ != "color13"@,
        "green"@ != "color14"@,
        "green"@ != "cursor"@,
        "green"@ != "theme_type"@,
        "green"@ != "bg"@,
        "green"@ != "dark_bg"@,
        "green"@ != "darker_bg"@,
        "green"@ != "lighter_bg"@,
        "green"@ != "fg"@,
        "green"@ != "dark_fg"@,
        "green"@ != "light_fg"@,
        "green"@ != "bright_fg"@,
        "green"@ != "muted"@,
        "green"@ != "selection"@,
        "green"@ != "selection_background"@,
        "green"@ != "selection_foreground"@,
        "green"@ != "orange"@,
        "green"@ != "brown"@,
        "green"@ != "purple"@,
        "green"@ != "bright_purple"@,
        "green"@ != "color8"@,
        "green"@ != "color15"@,
        "yellow"@ != "background"@,
        "yellow"@ != "dark_background"@,
        "yellow"@ != "darker_background"@,
        "yellow"@ != "lighter_background"@,
        "yellow"@ != "foreground"@,
        "yellow"@ != "dark_foreground"@,
        "yellow"@ != "light_foreground"@,
        "yellow"@ != "bright_foreground"@,
        "yellow"@ != "color0"@,
        "yellow"@ != "color7"@,
        "yellow"@ != "blue"@,
        "yellow"@ != "magenta"@,
        "yellow"@ != "cyan"@,
        "yellow"@ != "bright_red"@,
        "yellow"@ != "bright_green"@,
        "yellow"@ != "bright_yellow"@,
        "yellow"@ != "bright_blue"@,
        "yellow"@ != "bright_magenta"@,
        "yellow"@ != "bright_cyan"@,
        "yellow"@ != "color1"@,
        "yellow"@ != "color2"@,
        "yellow"@ != "color3"@,
        "yellow"@ != "color4"@,
        "yellow"@ != "color5"@,
        "yellow"@ != "color6"@,
        "yellow"@ != "color9"@,
        "yellow"@ != "color10"@,
        "yellow"@ != "color11"@,
        "yellow"@ != "color12"@,
        "yellow"@ != "color13"@,
        "yellow"@ != "color14"@,
        "yellow"@ != "cursor"@,
        "yellow"@ != "theme_type"@,
        "yellow"@ != "bg"@,
        "yellow"@ != "dark_bg"@,
        "yellow"@ != "darker_bg"@,
        "yellow"@ != "lighter_bg"@,
        "yellow"@ != "fg"@,
        "yellow"@ != "dark_fg"@,
        "yellow"@ != "light_fg"@,
        "yellow"@ != "bright_fg"@,
        "yellow"@ != "muted"@,
        "yellow"@ != "selection"@,
        "yellow"@ != "selection_background"@,
        "yellow"@ != "selection_foreground"@,
        "yellow"@ != "orange"@,
        "yellow"@ != "brown"@,
        "yellow"@ != "purple"@,
        "yellow"@ != "bright_purple"@,
        "yellow"@ != "color8"@,
        "yellow"@ != "color15"@,
        "blue"@ != "background"@,
        "blue"@ != "dark_background"@,
        "blue"@ != "darker_background"@,
        "blue"@ != "lighter_background"@,
        "blue"@ != "foreground"@,
        "blue"@ != "dark_foreground"@,
        "blue"@ != "light_foreground"@,
        "blue"@ != "bright_foreground"@,
        "blue"@ != "color0"@,
        "blue"@ != "color7"@,
        "blue"@ != "magenta"@,
        "blue"@ != "cyan"@,
        "blue"@ != "bright_red"@,
        "blue"@ != "bright_green"@,
        "blue"@ != "bright_yellow"@,
        "blue"@ != "bright_blue"@,
        "blue"@ != "bright_magenta"@,
        "blue"@ != "bright_cyan"@,
        "blue"@ != "color1"@,
        "blue"@ != "color2"@,
        "blue"@ != "color3"@,
        "blue"@ != "color4"@,
        "blue"@ != "color5"@,
        "blue"@ != "color6"@,
        "blue"@ != "color9"@,
        "blue"@ != "color10"@,
        "blue"@ != "color11"@,
        "blue"@ != "color12"@,
        "blue"@ != "color13"@,
        "blue"@ != "color14"@,
        "blue"@ != "cursor"@,
        "blue"@ != "theme_type"@,
        "blue"@ != "bg"@,
        "blue"@ != "dark_bg"@,
{
    reveal_strlit("background");
    reveal_strlit("bg");
    reveal_strlit("blue");
    reveal_strlit("bright_blue");
    reveal_strlit("bright_cyan");
    reveal_strlit("bright_fg");
    reveal_strlit("bright_foreground");
    reveal_strlit("bright_green");
    reveal_strlit("bright_magenta");
    reveal_strlit("bright_purple");
    reveal_strlit("bright_red");
    reveal_strlit("bright_yellow");
    reveal_strlit("brown");
    reveal_strlit("color0");
    reveal_strlit("color1");
    reveal_strlit("color10");
    reveal_strlit("color11");
    reveal_strlit("color12");
    reveal_strlit("color13");
    reveal_strlit("color14");
    reveal_strlit("color15");
    reveal_strlit("color2");
    reveal_strlit("color3");
    reveal_strlit("color4");
    reveal_strlit("color5");
    reveal_strlit("color6");
    reveal_strlit("color7");
    reveal_strlit("color8");
    reveal_strlit("color9");
    reveal_strlit("cursor");
    reveal_strlit("cyan");
    reveal_strlit("dark_background");
    reveal_strlit("dark_bg");
    reveal_strlit("dark_fg");
    reveal_strlit("dark_foreground");
    reveal_strlit("darker_background");
    reveal_strlit("darker_bg");
    reveal_strlit("fg");
    reveal_strlit("foreground");
    reveal_strlit("green");
    reveal_strlit("light_fg");
    reveal_strlit("light_foreground");
    reveal_strlit("lighter_background");
    reveal_strlit("lighter_bg");
    reveal_strlit("magenta");
    reveal_strlit("muted");
    reveal_strlit("orange");
    reveal_strlit("purple");
    reveal_strlit("red");
    reveal_strlit("selection");
    reveal_strlit("selection_background");
    reveal_strlit("selection_foreground");
    reveal_strlit("theme_type");
    reveal_strlit("yellow");
    assert("red"@.len() == 3);
    assert("background"@.len() == 10);
    assert("dark_background"@.len() == 15);
    assert("darker_background"@.len() == 17);
    assert("lighter_background"@.len() == 18);
    assert("foreground"@.len() == 10);
    assert("dark_foreground"@.len() == 15);
    assert("light_foreground"@.len() == 16);
    assert("bright_foreground"@.len() == 17);
    assert("color0"@.len() == 6);
    assert("color7"@.len() == 6);
    assert("green"@.len() == 5);
    assert("yellow"@.len() == 6);
    assert("blue"@.len() == 4);
    assert("magenta"@.len() == 7);
    assert("cyan"@.len() == 4);
    assert("bright_red"@.len() == 10);
    assert("bright_green"@.len() == 12);
    assert("bright_yellow"@.len() == 13);
    assert("bright_blue"@.len() == 11);
    assert("bright_magenta"@.len() == 14);
    assert("bright_cyan"@.len() == 11);
    assert("color1"@.len() == 6);
    assert("color2"@.len() == 6);
    assert("color3"@.len() == 6);
    assert("color4"@.len() == 6);
    assert("color5"@.len() == 6);
    assert("color6"@.len() == 6);
    assert("color9"@.len() == 6);
    assert("color10"@.len() == 7);
    assert("color11"@.len() == 7);
    assert("color12"@.len() == 7);
    assert("color13"@.len() == 7);
    assert("color14"@.len() == 7);
    assert("cursor"@.len() == 6);
    assert("theme_type"@.len() == 10);
    assert("bg"@.len() == 2);
    assert("dark_bg"@.len() == 7);
    assert("darker_bg"@.len() == 9);
    assert("lighter_bg"@.len() == 10);
    assert("fg"@.len() == 2);
    assert("dark_fg"@.len() == 7);
    assert("light_fg"@.len() == 8);
    assert("bright_fg"@.len() == 9);
    assert("muted"@.len() == 5);
    assert("selection"@.len() == 9);
    assert("selection_background"@.len() == 20);
    assert("selection_foreground"@.len() == 20);
    assert("orange"@.len() == 6);
    assert("brown"@.len() == 5);
    assert("purple"@.len() == 6);
    assert("bright_purple"@.len() == 13);
    assert("color8"@.len() == 6);
    assert("color15"@.len() == 7);
    assert("green"@[0] == 'g');
    assert("muted"@[0] == 'm');
    assert("brown"@[0] == 'b');
    assert("yellow"@[0] == 'y');
    assert("color0"@[0] == 'c');
    assert("color7"@[0] == 'c');
    assert("color1"@[0] == 'c');
    assert("color2"@[0] == 'c');
    assert("color3"@[0] == 'c');
    assert("color4"@[0] == 'c');
    assert("color5"@[0] == 'c');
    assert("color6"@[0] == 'c');
    assert("color9"@[0] == 'c');
    assert("cursor"@[0] == 'c');
    assert("orange"@[0] == 'o');
    assert("purple"@[0] == 'p');
    assert("color8"@[0] == 'c');
    assert("blue"@[0] == 'b');
    assert("cyan"@[0] == 'c');
}

proof fn lemma_semantic_pairs_distinct_2()
    ensures
        "blue"@ != "darker_bg"@,
        "blue"@ != "lighter_bg"@,
        "blue"@ != "fg"@,
        "blue"@ != "dark_fg"@,
        "blue"@ != "light_fg"@,
        "blue"@ != "bright_fg"@,
        "blue"@ != "muted"@,
        "blue"@ != "selection"@,
        "blue"@ != "selection_background"@,
        "blue"@ != "selection_foreground"@,
        "blue"@ != "orange"@,
        "blue"@ != "brown"@,
        "blue"@ != "purple"@,
        "blue"@ != "bright_purple"@,
        "blue"@ != "color8"@,
        "blue"@ != "color15"@,
        "magenta"@ != "background"@,
        "magenta"@ != "dark_background"@,
        "magenta"@ != "darker_background"@,
        "magenta"@ != "lighter_background"@,
        "magenta"@ != "foreground"@,
        "magenta"@ != "dark_foreground"@,
        "magenta"@ != "light_foreground"@,
        "magenta"@ != "bright_foreground"@,
        "magenta"@ != "color0"@,
        "magenta"@ != "color7"@,
        "magenta"@ != "cyan"@,
        "magenta"@ != "bright_red"@,
        "magenta"@ != "bright_green"@,
        "magenta"@ != "bright_yellow"@,
        "magenta"@ != "bright_blue"@,
        "magenta"@ != "bright_magenta"@,
        "magenta"@ != "bright_cyan"@,
        "magenta"@ != "color1"@,
        "magenta"@ != "color2"@,
        "magenta"@ != "color3"@,
        "magenta"@ != "color4"@,
        "magenta"@ != "color5"@,
        "magenta"@ != "color6"@,
        "magenta"@ != "color9"@,
        "magenta"@ != "color10"@,
        "magenta"@ != "color11"@,
        "magenta"@ != "color12"@,
        "magenta"@ != "color13"@,
        "magenta"@ != "color14"@,
        "magenta"@ != "cursor"@,
        "magenta"@ != "theme_type"@,
        "magenta"@ != "bg"@,
        "magenta"@ != "dark_bg"@,
        "magenta"@ != "darker_bg"@,
        "magenta"@ != "lighter_bg"@,
        "magenta"@ != "fg"@,
        "magenta"@ != "dark_fg"@,
        "magenta"@ != "light_fg"@,
        "magenta"@ != "bright_fg"@,
        "magenta"@ != "muted"@,
        "magenta"@ != "selection"@,
        "magenta"@ != "selection_background"@,
        "magenta"@ != "selection_foreground"@,
        "magenta"@ != "orange"@,
        "magenta"@ != "brown"@,
        "magenta"@ != "purple"@,
        "magenta"@ != "bright_purple"@,
        "magenta"@ != "color8"@,
        "magenta"@ != "color15"@,
        "cyan"@ != "background"@,
        "cyan"@ != "dark_background"@,
        "cyan"@ != "darker_background"@,
        "cyan"@ != "lighter_background"@,
        "cyan"@ != "foreground"@,
        "cyan"@ != "dark_foreground"@,
        "cyan"@ != "light_foreground"@,
        "cyan"@ != "bright_foreground"@,
        "cyan"@ != "color0"@,
        "cyan"@ != "color7"@,
        "cyan"@ != "bright_red"@,
        "cyan"@ != "bright_green"@,
        "cyan"@ != "bright_yellow"@,
        "cyan"@ != "bright_blue"@,
        "cyan"@ != "bright_magenta"@,
        "cyan"@ != "bright_cyan"@,
        "cyan"@ != "color1"@,
        "cyan"@ != "color2"@,
        "cyan"@ != "color3"@,
        "cyan"@ != "color4"@,
        "cyan"@ != "color5"@,
        "cyan"@ != "color6"@,
        "cyan"@ != "color9"@,
        "cyan"@ != "color10"@,
        "cyan"@ != "color11"@,
        "cyan"@ != "color12"@,
        "cyan"@ != "color13"@,
        "cyan"@ != "color14"@,
        "cyan"@ != "cursor"@,
        "cyan"@ != "theme_type"@,
        "cyan"@ != "bg"@,
        "cyan"@ != "dark_bg"@,
        "cyan"@ != "darker_bg"@,
        "cyan"@ != "lighter_bg"@,
        "cyan"@ != "fg"@,
        "cyan"@ != "dark_fg"@,
        "cyan"@ != "light_fg"@,
        "cyan"@ != "bright_fg"@,
        "cyan"@ != "muted"@,
        "cyan"@ != "selection"@,
        "cyan"@ != "selection_background"@,
        "cyan"@ != "selection_foreground"@,
        "cyan"@ != "orange"@,
        "cyan"@ != "brown"@,
        "cyan"@ != "purple"@,
        "cyan"@ != "bright_purple"@,
        "cyan"@ != "color8"@,
        "cyan"@ != "color15"@,
        "bright_red"@ != "background"@,
        "bright_red"@ != "dark_background"@,
        "bright_red"@ != "darker_background"@,
        "bright_red"@ != "lighter_background"@,
        "bright_red"@ != "foreground"@,
        "bright_red"@ != "dark_foreground"@,
        "bright_red"@ != "light_foreground"@,
        "bright_red"@ != "bright_foreground"@,
        "bright_red"@ != "color0"@,
        "bright_red"@ != "color7"@,
        "bright_red"@ != "bright_green"@,
        "bright_red"@ != "bright_yellow"@,
        "bright_red"@ != "bright_blue"@,
        "bright_red"@ != "bright_magenta"@,
        "bright_red"@ != "bright_cyan"@,
        "bright_red"@ != "color1"@,
        "bright_red"@ != "color2"@,
        "bright_red"@ != "color3"@,
        "bright_red"@ != "color4"@,
        "bright_red"@ != "color5"@,
        "bright_red"@ != "color6"@,
        "bright_red"@ != "color9"@,
        "bright_red"@ != "color10"@,
        "bright_red"@ != "color11"@,
        "bright_red"@ != "color12"@,
        "bright_red"@ != "color13"@,
        "bright_red"@ != "color14"@,
        "bright_red"@ != "cursor"@,
        "bright_red"@ != "theme_type"@,
        "bright_red"@ != "bg"@,
        "bright_red"@ != "dark_bg"@,
        "bright_red"@ != "darker_bg"@,
        "bright_red"@ != "lighter_bg"@,
        "bright_red"@ != "fg"@,
        "bright_red"@ != "dark_fg"@,
        "bright_red"@ != "light_fg"@,
        "bright_red"@ != "bright_fg"@,
        "bright_red"@ != "muted"@,
        "bright_red"@ != "selection"@,
        "bright_red"@ != "selection_background"@,
        "bright_red"@ != "selection_foreground"@,
        "bright_red"@ != "orange"@,
        "bright_red"@ != "brown"@,
        "bright_red"@ != "purple"@,
        "bright_red"@ != "bright_purple"@,
        "bright_red"@ != "color8"@,
        "bright_red"@ != "color15"@,
        "bright_green"@ != "background"@,
        "bright_green"@ != "dark_background"@,
        "bright_green"@ != "darker_background"@,
        "bright_green"@ != "lighter_background"@,
        "bright_green"@ != "foreground"@,
        "bright_green"@ != "dark_foreground"@,
        "bright_green"@ != "light_foreground"@,
        "bright_green"@ != "bright_foreground"@,
        "bright_green"@ != "color0"@,
        "bright_green"@ != "color7"@,
        "bright_green"@ != "bright_yellow"@,
        "bright_green"@ != "bright_blue"@,
        "bright_green"@ != "bright_magenta"@,
        "bright_green"@ != "bright_cyan"@,
        "bright_green"@ != "color1"@,
        "bright_green"@ != "color2"@,
        "bright_green"@ != "color3"@,
        "bright_green"@ != "color4"@,
        "bright_green"@ != "color5"@,
        "bright_green"@ != "color6"@,
        "bright_green"@ != "color9"@,
        "bright_green"@ != "color10"@,
        "bright_green"@ != "color11"@,
        "bright_green"@ != "color12"@,
        "bright_green"@ != "color13"@,
        "bright_green"@ != "color14"@,
        "bright_green"@ != "cursor"@,
        "bright_green"@ != "theme_type"@,
        "bright_green"@ != "bg"@,
        "bright_green"@ != "dark_bg"@,
{
    reveal_strlit("background");
    reveal_strlit("bg");
    reveal_strlit("blue");
    reveal_strlit("bright_blue");
    reveal_strlit("bright_cyan");
    reveal_strlit("bright_fg");
    reveal_strlit("bright_foreground");
    reveal_strlit("bright_green");
    reveal_strlit("bright_magenta");
    reveal_strlit("bright_purple");
    reveal_strlit("bright_red");
    reveal_strlit("bright_yellow");
    reveal_strlit("brown");
    reveal_strlit("color0");
    reveal_strlit("color1");
    reveal_strlit("color10");
    reveal_strlit("color11");
    reveal_strlit("color12");
    reveal_strlit("color13");
    reveal_strlit("color14");
    reveal_strlit("color15");
    reveal_strlit("color2");
    reveal_strlit("color3");
    reveal_strlit("color4");
    reveal_strlit("color5");
    reveal_strlit("color6");
    reveal_strlit("color7");
    reveal_strlit("color8");
    reveal_strlit("color9");
    reveal_strlit("cursor");
    reveal_strlit("cyan");
    reveal_strlit("dark_background");
    reveal_strlit("dark_bg");
    reveal_strlit("dark_fg");
    reveal_strlit("dark_foreground");
    reveal_strlit("darker_background");
    reveal_strlit("darker_bg");
    reveal_strlit("fg");
    reveal_strlit("foreground");
    reveal_strlit("light_fg");
    reveal_strlit("light_foreground");
    reveal_strlit("lighter_background");
    reveal_strlit("lighter_bg");
    reveal_strlit("magenta");
    reveal_strlit("muted");
    reveal_strlit("orange");
    reveal_strlit("purple");
    reveal_strlit("selection");
    reveal_strlit("selection_background");
    reveal_strlit("selection_foreground");
    reveal_strlit("theme_type");
    assert("blue"@.len() == 4);
    assert("darker_bg"@.len() == 9);
    assert("lighter_bg"@.len() == 10);
    assert("fg"@.len() == 2);
    assert("dark_fg"@.len() == 7);
    assert("light_fg"@.len() == 8);
    assert("bright_fg"@.len() == 9);
    assert("muted"@.len() == 5);
    assert("selection"@.len() == 9);
    assert("selection_background"@.len() == 20);
    assert("selection_foreground"@.len() == 20);
    assert("orange"@.len() == 6);
    assert("brown"@.len() == 5);
    assert("purple"@.len() == 6);
    assert("bright_purple"@.len() == 13);
    assert("color8"@.len() == 6);
    assert("color15"@.len() == 7);
    assert("magenta"@.len() == 7);
    assert("background"@.len() == 10);
    assert("dark_background"@.len() == 15);
    assert("darker_background"@.len() == 17);
    assert("lighter_background"@.len() == 18);
    assert("foreground"@.len() == 10);
    assert("dark_foreground"@.len() == 15);
    assert("light_foreground"@.len() == 16);
    assert("bright_foreground"@.len() == 17);
    assert("color0"@.len() == 6);
    assert("color7"@.len() == 6);
    assert("cyan"@.len() == 4);
    assert("bright_red"@.len() == 10);
    assert("bright_green"@.len() == 12);
    assert("bright_yellow"@.len() == 13);
    assert("bright_blue"@.len() == 11);
    assert("bright_magenta"@.len() == 14);
    assert("bright_cyan"@.len() == 11);
    assert("color1"@.len() == 6);
    assert("color2"@.len() == 6);
    assert("color3"@.len() == 6);
    assert("color4"@.len() == 6);
    assert("color5"@.len() == 6);
    assert("color6"@.len() == 6);
    assert("color9"@.len() == 6);
    assert("magenta"@[0] == 'm');
    assert("color10"@[0] == 'c');
    assert("color11"@[0] == 'c');
    assert("color12"@[0] == 'c');
    assert("color13"@[0] == 'c');
    assert("color14"@[0] == 'c');
    assert("cursor"@.len() == 6);
    assert("theme_type"@.len() == 10);
    assert("bg"@.len() == 2);
    assert("dark_bg"@[0] == 'd');
    assert("dark_fg"@[0] == 'd');
    assert("color15"@[0] == 'c');
    assert("color10"@.len() == 7);
    assert("color11"@.len() == 7);
    assert("color12"@.len() == 7);
    assert("color13"@.len() == 7);
    assert("color14"@.len() == 7);
    assert("dark_bg"@.len() == 7);
    assert("bright_red"@[1] == 'r');
    assert("background"@[1] == 'a');
    assert("bright_red"@[0] == 'b');
    assert("foreground"@[0] == 'f');
    assert("theme_type"@[0] == 't');
    assert("lighter_bg"@[0] == 'l');
}

proof fn lemma_semantic_pairs_distinct_3()
    ensures
        "bright_green"@ != "darker_bg"@,
        "bright_green"@ != "lighter_bg"@,
        "bright_green"@ != "fg"@,
        "bright_green"@ != "dark_fg"@,
        "bright_green"@ != "light_fg"@,
        "bright_green"@ != "bright_fg"@,
        "bright_green"@ != "muted"@,
        "bright_green"@ != "selection"@,
        "bright_green"@ != "selection_background"@,
        "bright_green"@ != "selection_foreground"@,
        "bright_green"@ != "orange"@,
        "bright_green"@ != "brown"@,
        "bright_green"@ != "purple"@,
        "bright_green"@ != "bright_purple"@,
        "bright_green"@ != "color8"@,
        "bright_green"@ != "color15"@,
        "bright_yellow"@ != "background"@,
        "bright_yellow"@ != "dark_background"@,
        "bright_yellow"@ != "darker_background"@,
        "bright_yellow"@ != "lighter_background"@,
        "bright_yellow"@ != "foreground"@,
        "bright_yellow"@ != "dark_foreground"@,
        "bright_yellow"@ != "light_foreground"@,
        "bright_yellow"@ != "bright_foreground"@,
        "bright_yellow"@ != "color0"@,
        "bright_yellow"@ != "color7"@,
        "bright_yellow"@ != "bright_blue"@,
        "bright_yellow"@ != "bright_magenta"@,
        "bright_yellow"@ != "bright_cyan"@,
        "bright_yellow"@ != "color1"@,
        "bright_yellow"@ != "color2"@,
        "bright_yellow"@ != "color3"@,
        "bright_yellow"@ != "color4"@,
        "bright_yellow"@ != "color5"@,
        "bright_yellow"@ != "color6"@,
        "bright_yellow"@ != "color9"@,
        "bright_yellow"@ != "color10"@,
        "bright_yellow"@ != "color11"@,
        "bright_yellow"@ != "color12"@,
        "bright_yellow"@ != "color13"@,
        "bright_yellow"@ != "color14"@,
        "bright_yellow"@ != "cursor"@,
        "bright_yellow"@ != "theme_type"@,
        "bright_yellow"@ != "bg"@,
        "bright_yellow"@ != "dark_bg"@,
        "bright_yellow"@ != "darker_bg"@,
        "bright_yellow"@ != "lighter_bg"@,
        "bright_yellow"@ != "fg"@,
        "bright_yellow"@ != "dark_fg"@,
        "bright_yellow"@ != "light_fg"@,
        "bright_yellow"@ != "bright_fg"@,
        "bright_yellow"@ != "muted"@,
        "bright_yellow"@ != "selection"@,
        "bright_yellow"@ != "selection_background"@,
        "bright_yellow"@ != "selection_foreground"@,
        "bright_yellow"@ != "orange"@,
        "bright_yellow"@ != "brown"@,
        "bright_yellow"@ != "purple"@,
        "bright_yellow"@ != "bright_purple"@,
        "bright_yellow"@ != "color8"@,
        "bright_yellow"@ != "color15"@,
        "bright_blue"@ != "background"@,
        "bright_blue"@ != "dark_background"@,
        "bright_blue"@ != "darker_background"@,
        "bright_blue"@ != "lighter_background"@,
        "bright_blue"@ != "foreground"@,
        "bright_blue"@ != "dark_foreground"@,
        "bright_blue"@ != "light_foreground"@,
        "bright_blue"@ != "bright_foreground"@,
        "bright_blue"@ != "color0"@,
        "bright_blue"@ != "color7"@,
        "bright_blue"@ != "bright_magenta"@,
        "bright_blue"@ != "bright_cyan"@,
        "bright_blue"@ != "color1"@,
        "bright_blue"@ != "color2"@,
        "bright_blue"@ != "color3"@,
        "bright_blue"@ != "color4"@,
        "bright_blue"@ != "color5"@,
        "bright_blue"@ != "color6"@,
        "bright_blue"@ != "color9"@,
        "bright_blue"@ != "color10"@,
        "bright_blue"@ != "color11"@,
        "bright_blue"@ != "color12"@,
        "bright_blue"@ != "color13"@,
        "bright_blue"@ != "color14"@,
        "bright_blue"@ != "cursor"@,
        "bright_blue"@ != "theme_type"@,
        "bright_blue"@ != "bg"@,
        "bright_blue"@ != "dark_bg"@,
        "bright_blue"@ != "darker_bg"@,
        "bright_blue"@ != "lighter_bg"@,
        "bright_blue"@ != "fg"@,
        "bright_blue"@ != "dark_fg"@,
        "bright_blue"@ != "light_fg"@,
        "bright_blue"@ != "bright_fg"@,
        "bright_blue"@ != "muted"@,
        "bright_blue"@ != "selection"@,
        "bright_blue"@ != "selection_background"@,
        "bright_blue"@ != "selection_foreground"@,
        "bright_blue"@ != "orange"@,
        "bright_blue"@ != "brown"@,
        "bright_blue"@ != "purple"@,
        "bright_blue"@ != "bright_purple"@,
        "bright_blue"@ != "color8"@,
        "bright_blue"@ != "color15"@,
        "bright_magenta"@ != "background"@,
        "bright_magenta"@ != "dark_background"@,
        "bright_magenta"@ != "darker_background"@,
        "bright_magenta"@ != "lighter_background"@,
        "bright_magenta"@ != "foreground"@,
        "bright_magenta"@ != "dark_foreground"@,
        "bright_magenta"@ != "light_foreground"@,
        "bright_magenta"@ != "bright_foreground"@,
        "bright_magenta"@ != "color0"@,
        "bright_magenta"@ != "color7"@,
        "bright_magenta"@ != "bright_cyan"@,
        "bright_magenta"@ != "color1"@,
        "bright_magenta"@ != "color2"@,
        "bright_magenta"@ != "color3"@,
        "bright_magenta"@ != "color4"@,
        "bright_magenta"@ != "color5"@,
        "bright_magenta"@ != "color6"@,
        "bright_magenta"@ != "color9"@,
        "bright_magenta"@ != "color10"@,
        "bright_magenta"@ != "color11"@,
        "bright_magenta"@ != "color12"@,
        "bright_magenta"@ != "color13"@,
        "bright_magenta"@ != "color14"@,
        "bright_magenta"@ != "cursor"@,
        "bright_magenta"@ != "theme_type"@,
        "bright_magenta"@ != "bg"@,
        "bright_magenta"@ != "dark_bg"@,
        "bright_magenta"@ != "darker_bg"@,
        "bright_magenta"@ != "lighter_bg"@,
        "bright_magenta"@ != "fg"@,
        "bright_magenta"@ != "dark_fg"@,
        "bright_magenta"@ != "light_fg"@,
        "bright_magenta"@ != "bright_fg"@,
        "bright_magenta"@ != "muted"@,
        "bright_magenta"@ != "selection"@,
        "bright_magenta"@ != "selection_background"@,
        "bright_magenta"@ != "selection_foreground"@,
        "bright_magenta"@ != "orange"@,
        "bright_magenta"@ != "brown"@,
        "bright_magenta"@ != "purple"@,
        "bright_magenta"@ != "bright_purple"@,
        "bright_magenta"@ != "color8"@,
        "bright_magenta"@ != "color15"@,
        "bright_cyan"@ != "background"@,
        "bright_cyan"@ != "dark_background"@,
        "bright_cyan"@ != "darker_background"@,
        "bright_cyan"@ != "lighter_background"@,
        "bright_cyan"@ != "foreground"@,
        "bright_cyan"@ != "dark_foreground"@,
        "bright_cyan"@ != "light_foreground"@,
        "bright_cyan"@ != "bright_foreground"@,
        "bright_cyan"@ != "color0"@,
        "bright_cyan"@ != "color7"@,
        "bright_cyan"@ != "color1"@,
        "bright_cyan"@ != "color2"@,
        "bright_cyan"@ != "color3"@,
        "bright_cyan"@ != "color4"@,
        "bright_cyan"@ != "color5"@,
        "bright_cyan"@ != "color6"@,
        "bright_cyan"@ != "color9"@,
        "bright_cyan"@ != "color10"@,
        "bright_cyan"@ != "color11"@,
        "bright_cyan"@ != "color12"@,
        "bright_cyan"@ != "color13"@,
        "bright_cyan"@ != "color14"@,
        "bright_cyan"@ != "cursor"@,
        "bright_cyan"@ != "theme_type"@,
        "bright_cyan"@ != "bg"@,
        "bright_cyan"@ != "dark_bg"@,
        "bright_cyan"@ != "darker_bg"@,
        "bright_cyan"@ != "lighter_bg"@,
        "bright_cyan"@ != "fg"@,
        "bright_cyan"@ != "dark_fg"@,
        "bright_cyan"@ != "light_fg"@,
        "bright_cyan"@ != "bright_fg"@,
        "bright_cyan"@ != "muted"@,
        "bright_cyan"@ != "selection"@,
        "bright_cyan"@ != "selection_background"@,
        "bright_cyan"@ != "selection_foreground"@,
        "bright_cyan"@ != "orange"@,
        "bright_cyan"@ != "brown"@,
        "bright_cyan"@ != "purple"@,
        "bright_cyan"@ != "bright_purple"@,
        "bright_cyan"@ != "color8"@,
        "bright_cyan"@ != "color15"@,
{
    reveal_strlit("background");
    reveal_strlit("bg");
    reveal_strlit("bright_blue");
    reveal_strlit("bright_cyan");
    reveal_strlit("bright_fg");
    reveal_strlit("bright_foreground");
    reveal_strlit("bright_green");
    reveal_strlit("bright_magenta");
    reveal_strlit("bright_purple");
    reveal_strlit("bright_yellow");
    reveal_strlit("brown");
    reveal_strlit("color0");
    reveal_strlit("color1");
    reveal_strlit("color10");
    reveal_strlit("color11");
    reveal_strlit("color12");
    reveal_strlit("color13");
    reveal_strlit("color14");
    reveal_strlit("color15");
    reveal_strlit("color2");
    reveal_strlit("color3");
    reveal_strlit("color4");
    reveal_strlit("color5");
    reveal_strlit("color6");
    reveal_strlit("color7");
    reveal_strlit("color8");
    reveal_strlit("color9");
    reveal_strlit("cursor");
    reveal_strlit("dark_background");
    reveal_strlit("dark_bg");
    reveal_strlit("dark_fg");
    reveal_strlit("dark_foreground");
    reveal_strlit("darker_background");
    reveal_strlit("darker_bg");
    reveal_strlit("fg");
    reveal_strlit("foreground");
    reveal_strlit("light_fg");
    reveal_strlit("light_foreground");
    reveal_strlit("lighter_background");
    reveal_strlit("lighter_bg");
    reveal_strlit("muted");
    reveal_strlit("orange");
    reveal_strlit("purple");
    reveal_strlit("selection");
    reveal_strlit("selection_background");
    reveal_strlit("selection_foreground");
    reveal_strlit("theme_type");
    assert("bright_green"@.len() == 12);
    assert("darker_bg"@.len() == 9);
    assert("lighter_bg"@.len() == 10);
    assert("fg"@.len() == 2);
    assert("dark_fg"@.len() == 7);
    assert("light_fg"@.len() == 8);
    assert("bright_fg"@.len() == 9);
    assert("muted"@.len() == 5);
    assert("selection"@.len() == 9);
    assert("selection_background"@.len() == 20);
    assert("selection_foreground"@.len() == 20);
    assert("orange"@.len() == 6);
    assert("brown"@.len() == 5);
    assert("purple"@.len() == 6);
    assert("bright_purple"@.len() == 13);
    assert("color8"@.len() == 6);
    assert("color15"@.len() == 7);
    assert("bright_yellow"@.len() == 13);
    assert("background"@.len() == 10);
    assert("dark_background"@.len() == 15);
    assert("darker_background"@.len() == 17);
    assert("lighter_background"@.len() == 18);
    assert("foreground"@.len() == 10);
    assert("dark_foreground"@.len() == 15);
    assert("light_foreground"@.len() == 16);
    assert("bright_foreground"@.len() == 17);
    assert("color0"@.len() == 6);
    assert("color7"@.len() == 6);
    assert("bright_blue"@.len() == 11);
    assert("bright_magenta"@.len() == 14);
    assert("bright_cyan"@.len() == 11);
    assert("color1"@.len() == 6);
    assert("color2"@.len() == 6);
    assert("color3"@.len() == 6);
    assert("color4"@.len() == 6);
    assert("color5"@.len() == 6);
    assert("color6"@.len() == 6);
    assert("color9"@.len() == 6);
    assert("color10"@.len() == 7);
    assert("color11"@.len() == 7);
    assert("color12"@.len() == 7);
    assert("color13"@.len() == 7);
    assert("color14"@.len() == 7);
    assert("cursor"@.len() == 6);
    assert("theme_type"@.len() == 10);
    assert("bg"@.len() == 2);
    assert("dark_bg"@.len() == 7);
    assert("bright_yellow"@[7] == 'y');
    assert("bright_purple"@[7] == 'p');
    assert("bright_blue"@[7] == 'b');
    assert("bright_cyan"@[7] == 'c');
}

proof fn lemma_semantic_pairs_distinct_4()
    ensures
        "color1"@ != "background"@,
        "color1"@ != "dark_background"@,
        "color1"@ != "darker_background"@,
        "color1"@ != "lighter_background"@,
        "color1"@ != "foreground"@,
        "color1"@ != "dark_foreground"@,
        "color1"@ != "light_foreground"@,
        "color1"@ != "bright_foreground"@,
        "color1"@ != "color0"@,
        "color1"@ != "color7"@,
        "color1"@ != "color2"@,
        "color1"@ != "color3"@,
        "color1"@ != "color4"@,
        "color1"@ != "color5"@,
        "color1"@ != "color6"@,
        "color1"@ != "color9"@,
        "color1"@ != "color10"@,
        "color1"@ != "color11"@,
        "color1"@ != "color12"@,
        "color1"@ != "color13"@,
        "color1"@ != "color14"@,
        "color1"@ != "cursor"@,
        "color1"@ != "theme_type"@,
        "color1"@ != "bg"@,
        "color1"@ != "dark_bg"@,
        "color1"@ != "darker_bg"@,
        "color1"@ != "lighter_bg"@,
        "color1"@ != "fg"@,
        "color1"@ != "dark_fg"@,
        "color1"@ != "light_fg"@,
        "color1"@ != "bright_fg"@,
        "color1"@ != "muted"@,
        "color1"@ != "selection"@,
        "color1"@ != "selection_background"@,
        "color1"@ != "selection_foreground"@,
        "color1"@ != "orange"@,
        "color1"@ != "brown"@,
        "color1"@ != "purple"@,
        "color1"@ != "bright_purple"@,
        "color1"@ != "color8"@,
        "color1"@ != "color15"@,
        "color2"@ != "background"@,
        "color2"@ != "dark_background"@,
        "color2"@ != "darker_background"@,
        "color2"@ != "lighter_background"@,
        "color2"@ != "foreground"@,
        "color2"@ != "dark_foreground"@,
        "color2"@ != "light_foreground"@,
        "color2"@ != "bright_foreground"@,
        "color2"@ != "color0"@,
        "color2"@ != "color7"@,
        "color2"@ != "color3"@,
        "color2"@ != "color4"@,
        "color2"@ != "color5"@,
        "color2"@ != "color6"@,
        "color2"@ != "color9"@,
        "color2"@ != "color10"@,
        "color2"@ != "color11"@,
        "color2"@ != "color12"@,
        "color2"@ != "color13"@,
        "color2"@ != "color14"@,
        "color2"@ != "cursor"@,
        "color2"@ != "theme_type"@,
        "color2"@ != "bg"@,
        "color2"@ != "dark_bg"@,
        "color2"@ != "darker_bg"@,
        "color2"@ != "lighter_bg"@,
        "color2"@ != "fg"@,
        "color2"@ != "dark_fg"@,
        "color2"@ != "light_fg"@,
        "color2"@ != "bright_fg"@,
        "color2"@ != "muted"@,
        "color2"@ != "selection"@,
        "color2"@ != "selection_background"@,
        "color2"@ != "selection_foreground"@,
        "color2"@ != "orange"@,
        "color2"@ != "brown"@,
        "color2"@ != "purple"@,
        "color2"@ != "bright_purple"@,
        "color2"@ != "color8"@,
        "color2"@ != "color15"@,
        "color3"@ != "background"@,
        "color3"@ != "dark_background"@,
        "color3"@ != "darker_background"@,
        "color3"@ != "lighter_background"@,
        "color3"@ != "foreground"@,
        "color3"@ != "dark_foreground"@,
        "color3"@ != "light_foreground"@,
        "color3"@ != "bright_foreground"@,
        "color3"@ != "color0"@,
        "color3"@ != "color7"@,
        "color3"@ != "color4"@,
        "color3"@ != "color5"@,
        "color3"@ != "color6"@,
        "color3"@ != "color9"@,
        "color3"@ != "color10"@,
        "color3"@ != "color11"@,
        "color3"@ != "color12"@,
        "color3"@ != "color13"@,
        "color3"@ != "color14"@,
        "color3"@ != "cursor"@,
        "color3"@ != "theme_type"@,
        "color3"@ != "bg"@,
        "color3"@ != "dark_bg"@,
        "color3"@ != "darker_bg"@,
        "color3"@ != "lighter_bg"@,
        "color3"@ != "fg"@,
        "color3"@ != "dark_fg"@,
        "color3"@ != "light_fg"@,
        "color3"@ != "bright_fg"@,
        "color3"@ != "muted"@,
        "color3"@ != "selection"@,
        "color3"@ != "selection_background"@,
        "color3"@ != "selection_foreground"@,
        "color3"@ != "orange"@,
        "color3"@ != "brown"@,
        "color3"@ != "purple"@,
        "color3"@ != "bright_purple"@,
        "color3"@ != "color8"@,
        "color3"@ != "color15"@,
        "color4"@ != "background"@,
        "color4"@ != "dark_background"@,
        "color4"@ != "darker_background"@,
        "color4"@ != "lighter_background"@,
        "color4"@ != "foreground"@,
        "color4"@ != "dark_foreground"@,
        "color4"@ != "light_foreground"@,
        "color4"@ != "bright_foreground"@,
        "color4"@ != "color0"@,
        "color4"@ != "color7"@,
        "color4"@ != "color5"@,
        "color4"@ != "color6"@,
        "color4"@ != "color9"@,
        "color4"@ != "color10"@,
        "color4"@ != "color11"@,
        "color4"@ != "color12"@,
        "color4"@ != "color13"@,
        "color4"@ != "color14"@,
        "color4"@ != "cursor"@,
        "color4"@ != "theme_type"@,
        "color4"@ != "bg"@,
        "color4"@ != "dark_bg"@,
        "color4"@ != "darker_bg"@,
        "color4"@ != "lighter_bg"@,
        "color4"@ != "fg"@,
        "color4"@ != "dark_fg"@,
        "color4"@ != "light_fg"@,
        "color4"@ != "bright_fg"@,
        "color4"@ != "muted"@,
        "color4"@ != "selection"@,
        "color4"@ != "selection_background"@,
        "color4"@ != "selection_foreground"@,
        "color4"@ != "orange"@,
        "color4"@ != "brown"@,
        "color4"@ != "purple"@,
        "color4"@ != "bright_purple"@,
        "color4"@ != "color8"@,
        "color4"@ != "color15"@,
        "color5"@ != "background"@,
        "color5"@ != "dark_background"@,
        "color5"@ != "darker_background"@,
        "color5"@ != "lighter_background"@,
        "color5"@ != "foreground"@,
        "color5"@ != "dark_foreground"@,
        "color5"@ != "light_foreground"@,
        "color5"@ != "bright_foreground"@,
        "color5"@ != "color0"@,
        "color5"@ != "color7"@,
        "color5"@ != "color6"@,
        "color5"@ != "color9"@,
        "color5"@ != "color10"@,
        "color5"@ != "color11"@,
        "color5"@ != "color12"@,
        "color5"@ != "color13"@,
        "color5"@ != "color14"@,
        "color5"@ != "cursor"@,
        "color5"@ != "theme_type"@,
        "color5"@ != "bg"@,
        "color5"@ != "dark_bg"@,
        "color5"@ != "darker_bg"@,
        "color5"@ != "lighter_bg"@,
        "color5"@ != "fg"@,
        "color5"@ != "dark_fg"@,
        "color5"@ != "light_fg"@,
        "color5"@ != "bright_fg"@,
        "color5"@ != "muted"@,
        "color5"@ != "selection"@,
        "color5"@ != "selection_background"@,
        "color5"@ != "selection_foreground"@,
        "color5"@ != "orange"@,
{
    reveal_strlit("background");
    reveal_strlit("bg");
    reveal_strlit("bright_fg");
    reveal_strlit("bright_foreground");
    reveal_strlit("bright_purple");
    reveal_strlit("brown");
    reveal_strlit("color0");
    reveal_strlit("color1");
    reveal_strlit("color10");
    reveal_strlit("color11");
    reveal_strlit("color12");
    reveal_strlit("color13");
    reveal_strlit("color14");
    reveal_strlit("color15");
    reveal_strlit("color2");
    reveal_strlit("color3");
    reveal_strlit("color4");
    reveal_strlit("color5");
    reveal_strlit("color6");
    reveal_strlit("color7");
    reveal_strlit("color8");
    reveal_strlit("color9");
    reveal_strlit("cursor");
    reveal_strlit("dark_background");
    reveal_strlit("dark_bg");
    reveal_strlit("dark_fg");
    reveal_strlit("dark_foreground");
    reveal_strlit("darker_background");
    reveal_strlit("darker_bg");
    reveal_strlit("fg");
    reveal_strlit("foreground");
    reveal_strlit("light_fg");
    reveal_strlit("light_foreground");
    reveal_strlit("lighter_background");
    reveal_strlit("lighter_bg");
    reveal_strlit("muted");
    reveal_strlit("orange");
    reveal_strlit("purple");
    reveal_strlit("selection");
    reveal_strlit("selection_background");
    reveal_strlit("selection_foreground");
    reveal_strlit("theme_type");
    assert("color1"@.len() == 6);
    assert("background"@.len() == 10);
    assert("dark_background"@.len() == 15);
    assert("darker_background"@.len() == 17);
    assert("lighter_background"@.len() == 18);
    assert("foreground"@.len() == 10);
    assert("dark_foreground"@.len() == 15);
    assert("light_foreground"@.len() == 16);
    assert("bright_foreground"@.len() == 17);
    assert("color1"@[5] == '1');
    assert("color0"@[5] == '0');
    assert("color7"@[5] == '7');
    assert("color2"@[5] == '2');
    assert("color3"@[5] == '3');
    assert("color4"@[5] == '4');
    assert("color5"@[5] == '5');
    assert("color6"@[5] == '6');
    assert("color9"@[5] == '9');
    assert("color10"@.len() == 7);
    assert("color11"@.len() == 7);
    assert("color12"@.len() == 7);
    assert("color13"@.len() == 7);
    assert("color14"@.len() == 7);
    assert("color1"@[1] == 'o');
    assert("cursor"@[1] == 'u');
    assert("theme_type"@.len() == 10);
    assert("bg"@.len() == 2);
    assert("dark_bg"@.len() == 7);
    assert("darker_bg"@.len() == 9);
    assert("lighter_bg"@.len() == 10);
    assert("fg"@.len() == 2);
    assert("dark_fg"@.len() == 7);
    assert("light_fg"@.len() == 8);
    assert("bright_fg"@.len() == 9);
    assert("muted"@.len() == 5);
    assert("selection"@.len() == 9);
    assert("selection_background"@.len() == 20);
    assert("selection_foreground"@.len() == 20);
    assert("color1"@[0] == 'c');
    assert("orange"@[0] == 'o');
    assert("brown"@.len() == 5);
    assert("purple"@[0] == 'p');
    assert("bright_purple"@.len() == 13);
    assert("color8"@[5] == '8');
    assert("color15"@.len() == 7);
    assert("color2"@.len() == 6);
    assert("color2"@[1] == 'o');
    assert("color2"@[0] == 'c');
    assert("color3"@.len() == 6);
    assert("color3"@[1] == 'o');
    assert("color3"@[0] == 'c');
    assert("color4"@.len() == 6);
    assert("color4"@[1] == 'o');
    assert("color4"@[0] == 'c');
    assert("color5"@.len() == 6);
    assert("color5"@[1] == 'o');
    assert("color5"@[0] == 'c');
}

proof fn lemma_semantic_pairs_distinct_5()
    ensures
        "color5"@ != "brown"@,
        "color5"@ != "purple"@,
        "color5"@ != "bright_purple"@,
        "color5"@ != "color8"@,
        "color5"@ != "color15"@,
        "color6"@ != "background"@,
        "color6"@ != "dark_background"@,
        "color6"@ != "darker_background"@,
        "color6"@ != "lighter_background"@,
        "color6"@ != "foreground"@,
        "color6"@ != "dark_foreground"@,
        "color6"@ != "light_foreground"@,
        "color6"@ != "bright_foreground"@,
        "color6"@ != "color0"@,
        "color6"@ != "color7"@,
        "color6"@ != "color9"@,
        "color6"@ != "color10"@,
        "color6"@ != "color11"@,
        "color6"@ != "color12"@,
        "color6"@ != "color13"@,
        "color6"@ != "color14"@,
        "color6"@ != "cursor"@,
        "color6"@ != "theme_type"@,
        "color6"@ != "bg"@,
        "color6"@ != "dark_bg"@,
        "color6"@ != "darker_bg"@,
        "color6"@ != "lighter_bg"@,
        "color6"@ != "fg"@,
        "color6"@ != "dark_fg"@,
        "color6"@ != "light_fg"@,
        "color6"@ != "bright_fg"@,
        "color6"@ != "muted"@,
        "color6"@ != "selection"@,
        "color6"@ != "selection_background"@,
        "color6"@ != "selection_foreground"@,
        "color6"@ != "orange"@,
        "color6"@ != "brown"@,
        "color6"@ != "purple"@,
        "color6"@ != "bright_purple"@,
        "color6"@ != "color8"@,
        "color6"@ != "color15"@,
        "color9"@ != "background"@,
        "color9"@ != "dark_background"@,
        "color9"@ != "darker_background"@,
        "color9"@ != "lighter_background"@,
        "color9"@ != "foreground"@,
        "color9"@ != "dark_foreground"@,
        "color9"@ != "light_foreground"@,
        "color9"@ != "bright_foreground"@,
        "color9"@ != "color0"@,
        "color9"@ != "color7"@,
        "color9"@ != "color10"@,
        "color9"@ != "color11"@,
        "color9"@ != "color12"@,
        "color9"@ != "color13"@,
        "color9"@ != "color14"@,
        "color9"@ != "cursor"@,
        "color9"@ != "theme_type"@,
        "color9"@ != "bg"@,
        "color9"@ != "dark_bg"@,
        "color9"@ != "darker_bg"@,
        "color9"@ != "lighter_bg"@,
        "color9"@ != "fg"@,
        "color9"@ != "dark_fg"@,
        "color9"@ != "light_fg"@,
        "color9"@ != "bright_fg"@,
        "color9"@ != "muted"@,
        "color9"@ != "selection"@,
        "color9"@ != "selection_background"@,
        "color9"@ != "selection_foreground"@,
        "color9"@ != "orange"@,
        "color9"@ != "brown"@,
        "color9"@ != "purple"@,
        "color9"@ != "bright_purple"@,
        "color9"@ != "color8"@,
        "color9"@ != "color15"@,
        "color10"@ != "background"@,
        "color10"@ != "dark_background"@,
        "color10"@ != "darker_background"@,
        "color10"@ != "lighter_background"@,
        "color10"@ != "foreground"@,
        "color10"@ != "dark_foreground"@,
        "color10"@ != "light_foreground"@,
        "color10"@ != "bright_foreground"@,
        "color10"@ != "color0"@,
        "color10"@ != "color7"@,
        "color10"@ != "color11"@,
        "color10"@ != "color12"@,
        "color10"@ != "color13"@,
        "color10"@ != "color14"@,
        "color10"@ != "cursor"@,
        "color10"@ != "theme_type"@,
        "color10"@ != "bg"@,
        "color10"@ != "dark_bg"@,
        "color10"@ != "darker_bg"@,
        "color10"@ != "lighter_bg"@,
        "color10"@ != "fg"@,
        "color10"@ != "dark_fg"@,
        "color10"@ != "light_fg"@,
        "color10"@ != "bright_fg"@,
        "color10"@ != "muted"@,
        "color10"@ != "selection"@,
        "color10"@ != "selection_background"@,
        "color10"@ != "selection_foreground"@,
        "color10"@ != "orange"@,
        "color10"@ != "brown"@,
        "color10"@ != "purple"@,
        "color10"@ != "bright_purple"@,
        "color10"@ != "color8"@,
        "color10"@ != "color15"@,
        "color11"@ != "background"@,
        "color11"@ != "dark_background"@,
        "color11"@ != "darker_background"@,
        "color11"@ != "lighter_background"@,
        "color11"@ != "foreground"@,
        "color11"@ != "dark_foreground"@,
        "color11"@ != "light_foreground"@,
        "color11"@ != "bright_foreground"@,
        "color11"@ != "color0"@,
        "color11"@ != "color7"@,
        "color11"@ != "color12"@,
        "color11"@ != "color13"@,
        "color11"@ != "color14"@,
        "color11"@ != "cursor"@,
        "color11"@ != "theme_type"@,
        "color11"@ != "bg"@,
        "color11"@ != "dark_bg"@,
        "color11"@ != "darker_bg"@,
        "color11"@ != "lighter_bg"@,
        "color11"@ != "fg"@,
        "color11"@ != "dark_fg"@,
        "color11"@ != "light_fg"@,
        "color11"@ != "bright_fg"@,
        "color11"@ != "muted"@,
        "color11"@ != "selection"@,
        "color11"@ != "selection_background"@,
        "color11"@ != "selection_foreground"@,
        "color11"@ != "orange"@,
        "color11"@ != "brown"@,
        "color11"@ != "purple"@,
        "color11"@ != "bright_purple"@,
        "color11"@ != "color8"@,
        "color11"@ != "color15"@,
        "color12"@ != "background"@,
        "color12"@ != "dark_background"@,
        "color12"@ != "darker_background"@,
        "color12"@ != "lighter_background"@,
        "color12"@ != "foreground"@,
        "color12"@ != "dark_foreground"@,
        "color12"@ != "light_foreground"@,
        "color12"@ != "bright_foreground"@,
        "color12"@ != "color0"@,
        "color12"@ != "color7"@,
        "color12"@ != "color13"@,
        "color12"@ != "color14"@,
        "color12"@ != "cursor"@,
        "color12"@ != "theme_type"@,
        "color12"@ != "bg"@,
        "color12"@ != "dark_bg"@,
        "color12"@ != "darker_bg"@,
        "color12"@ != "lighter_bg"@,
        "color12"@ != "fg"@,
        "color12"@ != "dark_fg"@,
        "color12"@ != "light_fg"@,
        "color12"@ != "bright_fg"@,
        "color12"@ != "muted"@,
        "color12"@ != "selection"@,
        "color12"@ != "selection_background"@,
        "color12"@ != "selection_foreground"@,
        "color12"@ != "orange"@,
        "color12"@ != "brown"@,
        "color12"@ != "purple"@,
        "color12"@ != "bright_purple"@,
        "color12"@ != "color8"@,
        "color12"@ != "color15"@,
        "color13"@ != "background"@,
        "color13"@ != "dark_background"@,
        "color13"@ != "darker_background"@,
        "color13"@ != "lighter_background"@,
        "color13"@ != "foreground"@,
        "color13"@ != "dark_foreground"@,
        "color13"@ != "light_foreground"@,
        "color13"@ != "bright_foreground"@,
        "color13"@ != "color0"@,
        "color13"@ != "color7"@,
        "color13"@ != "color14"@,
        "color13"@ != "cursor"@,
        "color13"@ != "theme_type"@,
        "color13"@ != "bg"@,
        "color13"@ != "dark_bg"@,
{
    reveal_strlit("background");
    reveal_strlit("bg");
    reveal_strlit("bright_fg");
    reveal_strlit("bright_foreground");
    reveal_strlit("bright_purple");
    reveal_strlit("brown");
    reveal_strlit("color0");
    reveal_strlit("color10");
    reveal_strlit("color11");
    reveal_strlit("color12");
    reveal_strlit("color13");
    reveal_strlit("color14");
    reveal_strlit("color15");
    reveal_strlit("color5");
    reveal_strlit("color6");
    reveal_strlit("color7");
    reveal_strlit("color8");
    reveal_strlit("color9");
    reveal_strlit("cursor");
    reveal_strlit("dark_background");
    reveal_strlit("dark_bg");
    reveal_strlit("dark_fg");
    reveal_strlit("dark_foreground");
    reveal_strlit("darker_background");
    reveal_strlit("darker_bg");
    reveal_strlit("fg");
    reveal_strlit("foreground");
    reveal_strlit("light_fg");
    reveal_strlit("light_foreground");
    reveal_strlit("lighter_background");
    reveal_strlit("lighter_bg");
    reveal_strlit("muted");
    reveal_strlit("orange");
    reveal_strlit("purple");
    reveal_strlit("selection");
    reveal_strlit("selection_background");
    reveal_strlit("selection_foreground");
    reveal_strlit("theme_type");
    assert("color5"@.len() == 6);
    assert("brown"@.len() == 5);
    assert("color5"@[0] == 'c');
    assert("purple"@[0] == 'p');
    assert("bright_purple"@.len() == 13);
    assert("color5"@[5] == '5');
    assert("color8"@[5] == '8');
    assert("color15"@.len() == 7);
    assert("color6"@.len() == 6);
    assert("background"@.len() == 10);
    assert("dark_background"@.len() == 15);
    assert("darker_background"@.len() == 17);
    assert("lighter_background"@.len() == 18);
    assert("foreground"@.len() == 10);
    assert("dark_foreground"@.len() == 15);
    assert("light_foreground"@.len() == 16);
    assert("bright_foreground"@.len() == 17);
    assert("color6"@[5] == '6');
    assert("color0"@[5] == '0');
    assert("color7"@[5] == '7');
    assert("color9"@[5] == '9');
    assert("color10"@.len() == 7);
    assert("color11"@.len() == 7);
    assert("color12"@.len() == 7);
    assert("color13"@.len() == 7);
    assert("color14"@.len() == 7);
    assert("color6"@[1] == 'o');
    assert("cursor"@[1] == 'u');
    assert("theme_type"@.len() == 10);
    assert("bg"@.len() == 2);
    assert("dark_bg"@.len() == 7);
    assert("darker_bg"@.len() == 9);
    assert("lighter_bg"@.len() == 10);
    assert("fg"@.len() == 2);
    assert("dark_fg"@.len() == 7);
    assert("light_fg"@.len() == 8);
    assert("bright_fg"@.len() == 9);
    assert("muted"@.len() == 5);
    assert("selection"@.len() == 9);
    assert("selection_background"@.len() == 20);
    assert("selection_foreground"@.len() == 20);
    assert("color6"@[0] == 'c');
    assert("orange"@[0] == 'o');
    assert("color9"@.len() == 6);
    assert("color9"@[1] == 'o');
    assert("color9"@[0] == 'c');
    assert("color0"@.len() == 6);
    assert("color7"@.len() == 6);
    assert("color10"@[6] == '0');
    assert("color11"@[6] == '1');
    assert("color12"@[6] == '2');
    assert("color13"@[6] == '3');
    assert("color14"@[6] == '4');
    assert("cursor"@.len() == 6);
    assert("color10"@[0] == 'c');
    assert("dark_bg"@[0] == 'd');
    assert("dark_fg"@[0] == 'd');
    assert("orange"@.len() == 6);
    assert("purple"@.len() == 6);
    assert("color8"@.len() == 6);
    assert("color15"@[6] == '5');
    assert("color11"@[0] == 'c');
    assert("color12"@[0] == 'c');
    assert("color13"@[0] == 'c');
}

proof fn lemma_semantic_pairs_distinct_6()
    ensures
        "color13"@ != "darker_bg"@,
        "color13"@ != "lighter_bg"@,
        "color13"@ != "fg"@,
        "color13"@ != "dark_fg"@,
        "color13"@ != "light_fg"@,
        "color13"@ != "bright_fg"@,
        "color13"@ != "muted"@,
        "color13"@ != "selection"@,
        "color13"@ != "selection_background"@,
        "color13"@ != "selection_foreground"@,
        "color13"@ != "orange"@,
        "color13"@ != "brown"@,
        "color13"@ != "purple"@,
        "color13"@ != "bright_purple"@,
        "color13"@ != "color8"@,
        "color13"@ != "color15"@,
        "color14"@ != "background"@,
        "color14"@ != "dark_background"@,
        "color14"@ != "darker_background"@,
        "color14"@ != "lighter_background"@,
        "color14"@ != "foreground"@,
        "color14"@ != "dark_foreground"@,
        "color14"@ != "light_foreground"@,
        "color14"@ != "bright_foreground"@,
        "color14"@ != "color0"@,
        "color14"@ != "color7"@,
        "color14"@ != "cursor"@,
        "color14"@ != "theme_type"@,
        "color14"@ != "bg"@,
        "color14"@ != "dark_bg"@,
        "color14"@ != "darker_bg"@,
        "color14"@ != "lighter_bg"@,
        "color14"@ != "fg"@,
        "color14"@ != "dark_fg"@,
        "color14"@ != "light_fg"@,
        "color14"@ != "bright_fg"@,
        "color14"@ != "muted"@,
        "color14"@ != "selection"@,
        "color14"@ != "selection_background"@,
        "color14"@ != "selection_foreground"@,
        "color14"@ != "orange"@,
        "color14"@ != "brown"@,
        "color14"@ != "purple"@,
        "color14"@ != "bright_purple"@,
        "color14"@ != "color8"@,
        "color14"@ != "color15"@,
{
    reveal_strlit("background");
    reveal_strlit("bg");
    reveal_strlit("bright_fg");
    reveal_strlit("bright_foreground");
    reveal_strlit("bright_purple");
    reveal_strlit("brown");
    reveal_strlit("color0");
    reveal_strlit("color13");
    reveal_strlit("color14");
    reveal_strlit("color15");
    reveal_strlit("color7");
    reveal_strlit("color8");
    reveal_strlit("cursor");
    reveal_strlit("dark_background");
    reveal_strlit("dark_bg");
    reveal_strlit("dark_fg");
    reveal_strlit("dark_foreground");
    reveal_strlit("darker_background");
    reveal_strlit("darker_bg");
    reveal_strlit("fg");
    reveal_strlit("foreground");
    reveal_strlit("light_fg");
    reveal_strlit("light_foreground");
    reveal_strlit("lighter_background");
    reveal_strlit("lighter_bg");
    reveal_strlit("muted");
    reveal_strlit("orange");
    reveal_strlit("purple");
    reveal_strlit("selection");
    reveal_strlit("selection_background");
    reveal_strlit("selection_foreground");
    reveal_strlit("theme_type");
    assert("color13"@.len() == 7);
    assert("darker_bg"@.len() == 9);
    assert("lighter_bg"@.len() == 10);
    assert("fg"@.len() == 2);
    assert("color13"@[0] == 'c');
    assert("dark_fg"@[0] == 'd');
    assert("light_fg"@.len() == 8);
    assert("bright_fg"@.len() == 9);
    assert("muted"@.len() == 5);
    assert("selection"@.len() == 9);
    assert("selection_background"@.len() == 20);
    assert("selection_foreground"@.len() == 20);
    assert("orange"@.len() == 6);
    assert("brown"@.len() == 5);
    assert("purple"@.len() == 6);
    assert("bright_purple"@.len() == 13);
    assert("color8"@.len() == 6);
    assert("color13"@[6] == '3');
    assert("color15"@[6] == '5');
    assert("color14"@.len() == 7);
    assert("background"@.len() == 10);
    assert("dark_background"@.len() == 15);
    assert("darker_background"@.len() == 17);
    assert("lighter_background"@.len() == 18);
    assert("foreground"@.len() == 10);
    assert("dark_foreground"@.len() == 15);
    assert("light_foreground"@.len() == 16);
    assert("bright_foreground"@.len() == 17);
    assert("color0"@.len() == 6);
    assert("color7"@.len() == 6);
    assert("cursor"@.len() == 6);
    assert("theme_type"@.len() == 10);
    assert("bg"@.len() == 2);
    assert("color14"@[0] == 'c');
    assert("dark_bg"@[0] == 'd');
    assert("color14"@[6] == '4');
}


/// With neither a `mode` nor a `theme_type` key and no `light.mode` marker,
/// a background written as `#` and six hex digits decides the mode by its
/// luminance: light exactly when red + green + blue exceeds 382.
pub proof fn law_mode_follows_background_luminance(text: Seq<char>, bg: Seq<char>, c: Rgba)
    requires
        raw(colors_map(text), "mode"@) is None,
        raw(colors_map(text), "theme_type"@) is None,
        raw(resolved(text, false).entries, "background"@) == Some(bg),
        bg.len() == 7,
        bg[0] == '#',
        forall|i: int|
            1 <= i < 7 ==> ('0' <= #[trigger] bg[i] <= '9') || ('a' <= bg[i] <= 'f') || ('A' <= bg[i]
                <= 'F'),
        parse_color(bg) == Some(c),
    ensures
        resolved(text, false).mode == (if c.r + c.g + c.b > 382 {
            Mode::Light
        } else {
            Mode::Dark
        }),
{
    let m0 = colors_map(text);
    let m = cascade(m0);
    lemma_cascade_keeps_mode_keys(m0);
    lemma_mode_keys_distinct();
    reveal_with_fuel(first_of, 3);
    assert(first_of(m, seq!["mode"@, "theme_type"@]) is None);
    assert(raw(m, "background"@) == Some(bg));
    let h = bg.drop_first();
    assert forall|i: int| 0 <= i < h.len() implies is_hex(#[trigger] h[i]) by {
        assert(h[i] == bg[i + 1]);
    }
    assert(strict_hex6(bg));
}

} // verus!
