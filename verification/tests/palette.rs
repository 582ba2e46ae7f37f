use omarchy_theme::{Mode, Palette, Rgba};

#[test]
fn quotes_and_comments_are_tolerated() {
    let p = Palette::resolve(
        "# comment = x\nmode = \"dark\"\naccent='#89b4fa' # inline\nselection = #45475a\n",
        false,
    );
    assert_eq!(p.get("mode"), Some("dark"));
    assert_eq!(p.get("accent"), Some("#89b4fa"));
    assert_eq!(p.get("selection"), Some("#45475a"));
    assert_eq!(p.get("comment"), None);
}

#[test]
fn legacy_aliases_flow_both_ways() {
    let p = Palette::resolve("bg = #101010\nfg = #eeeeee\n", false);
    assert_eq!(p.get("background"), Some("#101010"));
    assert_eq!(p.get("foreground"), Some("#eeeeee"));
    // canonical -> legacy back-propagation
    assert_eq!(p.get("bg"), Some("#101010"));
    assert_eq!(p.get("color0"), Some("#101010"));
    assert_eq!(p.get("color7"), Some("#eeeeee"));
}

#[test]
fn derived_shades_match_oracle_arithmetic() {
    let p = Palette::resolve(
        "background = #1e1e2e\nforeground = #cdd6f4\nred = #f38ba8\n",
        false,
    );
    assert_eq!(p.get("dark_background"), Some("#171723"));
    assert_eq!(p.get("darker_background"), Some("#0f0f17"));
    assert_eq!(p.get("bright_red"), Some("#f5a2b9")); // mix(red, white, 20%)
    assert_eq!(p.color("orange"), None); // no yellow and no color3 to alias
}

#[test]
fn missing_orange_falls_back_to_yellow() {
    let p = Palette::resolve(
        "background = #000000\nforeground = #ffffff\nyellow = #f9e2af\n",
        false,
    );
    assert_eq!(p.get("orange"), Some("#f9e2af"));
    assert_eq!(p.get("brown"), Some("#7d7158"));
}

#[test]
fn mode_detection_precedence() {
    let dark = Palette::resolve("mode = \"dark\"\nbackground = #ffffff\n", false);
    assert_eq!(dark.mode(), Mode::Dark);
    let legacy = Palette::resolve("theme_type = \"light\"\n", false);
    assert_eq!(legacy.mode(), Mode::Light);
    let marker = Palette::resolve("background = #101010\n", true);
    assert_eq!(marker.mode(), Mode::Light);
    let auto = Palette::resolve("background = #ffffff\n", false);
    assert_eq!(auto.mode(), Mode::Light);
    let auto_dark = Palette::resolve("background = #101010\n", false);
    assert_eq!(auto_dark.mode(), Mode::Dark);
}

#[test]
fn empty_values_treated_as_absent() {
    let p = Palette::resolve("accent =\nforeground=#abcdef\n", false);
    assert_eq!(p.color("accent"), None);
}

#[test]
fn theme_type_names_the_mode() {
    let p = Palette::resolve("background = #ffffff\n", false);
    assert_eq!(p.mode(), Mode::Light);
    assert_eq!(p.get("theme_type"), Some("light"));
    let q = Palette::resolve("mode = \"purple\"\n", true);
    assert_eq!(q.mode(), Mode::Dark);
    assert_eq!(q.get("theme_type"), Some("dark"));
}

#[test]
fn cursor_follows_bright_foreground() {
    let p = Palette::resolve("foreground = #cdd6f4\ncolor15 = #ffffff\ncursor = #123456\n", false);
    assert_eq!(p.get("bright_foreground"), Some("#ffffff"));
    assert_eq!(p.get("cursor"), Some("#ffffff"));
    assert_eq!(p.get("bright_fg"), Some("#ffffff"));
    assert_eq!(p.get("color15"), Some("#ffffff"));
}

#[test]
fn canonical_wins_over_legacy() {
    let p = Palette::resolve("bg = #111111\nbackground = #222222\n", false);
    assert_eq!(p.get("background"), Some("#222222"));
    assert_eq!(p.get("bg"), Some("#222222"));
}

#[test]
fn ansi_seeds_semantic_names() {
    let p = Palette::resolve("color0 = #000001\ncolor7 = #eeeeee\ncolor1 = #ff0000\npurple = #aa00aa\n", false);
    assert_eq!(p.get("background"), Some("#000001"));
    assert_eq!(p.get("foreground"), Some("#eeeeee"));
    assert_eq!(p.get("red"), Some("#ff0000"));
    assert_eq!(p.get("magenta"), Some("#aa00aa"));
    assert_eq!(p.get("color5"), Some("#aa00aa"));
    assert_eq!(p.ansi(1), Rgba::parse("#ff0000"));
    assert_eq!(p.ansi(16), None);
    // selection falls back through color8 / color0
    assert_eq!(p.get("selection"), Some("#000001"));
    assert_eq!(p.get("selection_background"), Some("#000001"));
}

#[test]
fn ansi_slots_cover_sixteen_colors() {
    let p = Palette::resolve(
        "background = #1e1e2e\nforeground = #cdd6f4\nred = #f38ba8\ngreen = #a6e3a1\nyellow = #f9e2af\nblue = #89b4fa\nmagenta = #f5c2e7\ncyan = #94e2d5\n",
        false,
    );
    for i in 0..16u8 {
        assert!(p.ansi(i).is_some(), "slot {i}");
    }
    assert_eq!(p.ansi(0), Rgba::parse("#1e1e2e"));
    assert_eq!(p.ansi(7), Rgba::parse("#cdd6f4"));
    assert_eq!(p.ansi(9), Rgba::parse("#f5a2b9"));
    assert_eq!(p.ansi(15), Rgba::parse("#cdd6f4"));
}

#[test]
fn invalid_lines_are_skipped_and_last_wins() {
    let p = Palette::resolve(
        "accent = #111111\nbad key = #222222\nweird = $(rm)\nno equals here\naccent = #333333\r\n",
        false,
    );
    assert_eq!(p.get("accent"), Some("#333333"));
    assert_eq!(p.get("badkey"), Some("#222222")); // spaces stripped from keys
    assert_eq!(p.get("weird"), None);
}

#[test]
fn entries_are_sorted_and_complete() {
    let p = Palette::resolve("zeta = #000000\nalpha = #ffffff\n", false);
    let e = p.entries();
    assert_eq!(e.len(), p.len());
    assert!(!p.is_empty());
    for w in e.windows(2) {
        assert!(w[0].0 < w[1].0);
    }
    assert!(e.iter().any(|(k, v)| k == "alpha" && v == "#ffffff"));
    assert!(e.iter().any(|(k, v)| k == "theme_type" && v == "dark"));
}

#[test]
fn empty_text_still_resolves_mode() {
    let p = Palette::resolve("", false);
    assert_eq!(p.mode(), Mode::Dark);
    assert_eq!(p.get("theme_type"), Some("dark"));
    // shades derive from black when their base is missing
    assert_eq!(p.get("brown"), Some("#000000"));
    assert_eq!(p.get("dark_background"), Some("#000000"));
    assert_eq!(p.get("bright_red"), Some("#333333"));
    assert_eq!(p.get("bright_purple"), Some("#333333"));
    assert_eq!(p.get("background"), None);
    assert_eq!(p.get("orange"), None);
    let d = Palette::default();
    assert!(d.is_empty());
    assert_eq!(d.mode(), Mode::Dark);
}

#[test]
fn gradients_are_values_but_not_colors() {
    let p = Palette::resolve("accent = \"rgba(1,2,3,1) #ffffff 45deg\"\n", false);
    assert_eq!(p.get("accent"), Some("rgba(1,2,3,1) #ffffff 45deg"));
    assert_eq!(p.color("accent"), None);
}

#[test]
fn mode_names() {
    assert_eq!(Mode::Dark.as_str(), "dark");
    assert_eq!(Mode::Light.as_str(), "light");
    assert!(Mode::Light.is_light());
    assert!(!Mode::Dark.is_light());
    assert_eq!(Mode::default(), Mode::Dark);
    assert_eq!(omarchy_theme::ABI_VERSION, 1);
}

#[test]
fn clone_keeps_every_entry() {
    let p = Palette::resolve("background = #1e1e2e\nmode = light\n", false);
    let q = p.clone();
    assert_eq!(q.entries(), p.entries());
    assert_eq!(q.mode(), Mode::Light);
}

#[test]
fn cascade_keeps_what_the_file_sets() {
    let p = Palette::resolve(
        "red = #ff0000\nselection = #222222\ncursor = #123456\nbg = #010101\nbackground = #202020\n",
        false,
    );
    assert_eq!(p.get("red"), Some("#ff0000"));
    assert_eq!(p.get("selection"), Some("#222222"));
    assert_eq!(p.get("background"), Some("#202020"));
    // keys the cascade overwrites
    assert_eq!(p.get("bg"), Some("#202020"));
    assert!(p.get("cursor").is_some());
}
