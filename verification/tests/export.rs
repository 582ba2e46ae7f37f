use omarchy_theme::export::{
    c_defines, c_guard, c_palette, css_font_rule, css_head, css_palette, needs_quotes, resolved_palette,
    toml_meta, toml_palette,
};
use omarchy_theme::Palette;

fn pairs(items: &[(&str, &str)]) -> Vec<(String, String)> {
    items.iter().map(|(k, v)| (k.to_string(), v.to_string())).collect()
}

#[test]
fn resolved_palette_lists_every_entry_sorted() {
    let p = Palette::resolve("mode = \"dark\"\naccent = #89b4fa\nbackground = #1e1e2e\n", false);
    let r = resolved_palette(&p);
    assert_eq!(r, p.entries());
    assert!(r.iter().any(|(k, v)| k == "accent" && v == "#89b4fa"));
    assert!(r.iter().any(|(k, v)| k == "color0" && v == "#1e1e2e"));
    for w in r.windows(2) {
        assert!(w[0].0 < w[1].0);
    }
}

#[test]
fn toml_quotes_everything_but_numbers() {
    assert!(needs_quotes("#89b4fa"));
    assert!(needs_quotes("dark"));
    assert!(needs_quotes(""));
    assert!(!needs_quotes("1.5"));
    assert!(!needs_quotes("-2e3"));
    assert!(!needs_quotes("inf"));
    assert!(!needs_quotes("NaN"));
    let out = toml_palette(&pairs(&[("accent", "#89b4fa"), ("scale", "2")]));
    assert_eq!(out, "accent = \"#89b4fa\"\nscale = 2\n");
}

#[test]
fn css_custom_properties() {
    let out = css_palette(&pairs(&[("accent", "#89b4fa"), ("cursor", "#cdd6f4")]));
    assert_eq!(out, "  --omarchy-accent: #89b4fa;\n  --omarchy-cursor: #cdd6f4;\n");
}

#[test]
fn c_header_palette_defines() {
    let out = c_palette(&pairs(&[
        ("accent", "#89b4fa"),
        ("gradient", "rgba(1,2,3) 45deg"),
        ("bright_red", "#f5a2b980"),
    ]));
    assert_eq!(
        out,
        "#define OMC_ACCENT 0x89B4FAFFu /* #89b4fa */\n#define OMC_BRIGHT_RED 0xF5A2B980u /* #f5a2b980 */\n"
    );
    assert_eq!(c_guard("tokyo-night"), "OMARCHY_THEME_GENERATED_TOKYO_NIGHT_H");
}

#[test]
fn fixed_lines_of_the_formats() {
    assert_eq!(
        toml_meta("goldentheme", "dark", "Test Mono NF", "", "/wall/scene.png"),
        "# omarchy-theme export: goldentheme\n\n[meta]\ntheme = \"goldentheme\"\nmode = \"dark\"\nfont-family = \"Test Mono NF\"\nbackground = \"/wall/scene.png\"\n"
    );
    assert_eq!(
        css_head("goldentheme", "dark"),
        ":root {\n  --omarchy-theme: goldentheme;\n  --omarchy-mode: dark;\n"
    );
    assert_eq!(
        css_font_rule("Test Mono NF"),
        "\nbody { font-family: \"Test Mono NF\", ui-monospace, monospace; }\n"
    );
    assert_eq!(css_font_rule(""), "");
    assert_eq!(
        c_defines("tokyo-night", "light"),
        "#ifndef OMARCHY_THEME_GENERATED_TOKYO_NIGHT_H\n#define OMARCHY_THEME_GENERATED_TOKYO_NIGHT_H\n\n#define OMARCHY_THEME_NAME \"tokyo-night\"\n#define OMARCHY_THEME_MODE_LIGHT\n"
    );
}
