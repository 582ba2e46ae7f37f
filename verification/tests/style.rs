use omarchy_theme::style::split_top_level_tokens;
use omarchy_theme::{Rgba, StyleTokens};

const SAMPLE: &str = r##"
[bar]
background       = "#060C1F"
background-alpha = 1.0

[hyprland]
active-border            = "#3FB4FF"
active-border-foreground = "#DCE6FF"

[controls]
normal-color        = "#DCE6FF"
normal-fill-alpha   = 0.04
normal-border       = "#DCE6FF"
normal-border-width = 1
normal-border-alpha = 0.4

[menu]
background       = "#060C1F"
background-alpha = 1.0
text             = "#DCE6FF"
border           = "hyprland.active-border-foreground"
scrim            = "#060C1F"
scrim-alpha      = 0.5

[font]
base-size = 12
"##;

#[test]
fn parses_flat_sections() {
    let t = StyleTokens::parse(SAMPLE);
    assert_eq!(t.get("bar", "background"), Some("#060C1F"));
    assert_eq!(
        t.get("bar", "background-alpha").and_then(|v| v.parse::<f64>().ok()),
        Some(1.0)
    );
}

#[test]
fn resolves_section_references() {
    let t = StyleTokens::parse(SAMPLE);
    assert_eq!(t.get("menu", "border"), Some("#DCE6FF"));
}

#[test]
fn gradient_first_stop_flattening() {
    let t = StyleTokens::parse("[x]\nborder = \"rgba(0, 0, 0, 1) rgba(0, 0, 0, 0) 45deg\"\n");
    assert_eq!(t.color("x", "border"), Some(Rgba::black()));
    let t = StyleTokens::parse("[x]\nborder = \"#111111 #222222 90deg\"\n");
    assert_eq!(t.color("x", "border"), Rgba::parse("#111111"));
}

#[test]
fn sections_and_entries_are_listed_in_order() {
    let t = StyleTokens::parse(SAMPLE);
    assert_eq!(t.sections(), vec!["bar", "controls", "font", "hyprland", "menu"]);
    let font = t.iter_section("font");
    assert_eq!(font, vec![("base-size".to_string(), "12".to_string())]);
    let bar = t.iter_section("bar");
    assert_eq!(bar[0].0, "background");
    assert_eq!(bar[1].0, "background-alpha");
    assert!(t.iter_section("missing").is_empty());
    assert!(!t.is_empty());
    assert!(StyleTokens::parse("").is_empty());
    assert!(StyleTokens::default().is_empty());
    assert_eq!(t.raw().len(), 5);
}

#[test]
fn booleans_and_bare_values() {
    let t = StyleTokens::parse(
        "[spacing]\nscale-with-font = true\nfixed = false\nscale = 1.5 # comment\nname = \"a # b\" trailing\n",
    );
    assert_eq!(t.bool("spacing", "scale-with-font"), Some(true));
    assert_eq!(t.bool("spacing", "fixed"), Some(false));
    assert_eq!(t.bool("spacing", "scale"), None);
    assert_eq!(t.bool("spacing", "missing"), None);
    assert_eq!(t.get("spacing", "scale"), Some("1.5"));
    assert_eq!(t.get("spacing", "name"), Some("a # b"));
}

#[test]
fn references_chain_and_cycles_keep_a_value() {
    let t = StyleTokens::parse(
        "[a]\nx = \"b.y\"\n[b]\ny = \"c.z\"\n[c]\nz = \"#123456\"\n[loop]\np = \"loop.q\"\nq = \"loop.p\"\n",
    );
    assert_eq!(t.get("a", "x"), Some("#123456"));
    assert_eq!(t.get("b", "y"), Some("#123456"));
    // a reference that never settles keeps its original value
    assert_eq!(t.get("loop", "p"), Some("loop.q"));
    assert_eq!(t.get("loop", "q"), Some("loop.p"));
    assert_eq!(t.color("a", "x"), Rgba::parse("#123456"));
}

#[test]
fn numbers_and_missing_targets_are_not_references() {
    let t = StyleTokens::parse("[s]\nalpha = 1.0\nref = \"nowhere.key\"\nnum = \"1.x\"\n");
    assert_eq!(t.get("s", "alpha"), Some("1.0"));
    assert_eq!(t.get("s", "ref"), Some("nowhere.key"));
    assert_eq!(t.get("s", "num"), Some("1.x"));
}

#[test]
fn entries_before_any_header_and_bad_keys() {
    let t = StyleTokens::parse("top = 1\n[ spaced ]\nbad key = 2\nok.key = 3\n[unclosed\nz = 4\n");
    assert_eq!(t.get("", "top"), Some("1"));
    assert_eq!(t.get("spaced", "bad key"), None);
    assert_eq!(t.get("spaced", "ok.key"), Some("3"));
    // a header without `]` is skipped, so `z` stays in `spaced`
    assert_eq!(t.get("spaced", "z"), Some("4"));
}

#[test]
fn top_level_tokens_keep_parentheses() {
    assert_eq!(
        split_top_level_tokens("rgba(1 2 3) #aabbcc 45deg"),
        vec!["rgba(1 2 3)", "#aabbcc", "45deg"]
    );
    assert_eq!(split_top_level_tokens("  a  b "), vec!["a", "b"]);
    assert!(split_top_level_tokens("").is_empty());
    assert_eq!(split_top_level_tokens("x) y"), vec!["x)", "y"]);
}

#[test]
fn clone_keeps_every_section() {
    let t = StyleTokens::parse(SAMPLE);
    let u = t.clone();
    assert_eq!(u.sections(), t.sections());
    assert_eq!(u.iter_section("menu"), t.iter_section("menu"));
}

#[test]
fn two_way_cycle_keeps_parsed_values() {
    let t = StyleTokens::parse("[a]\nx = \"b.y\"\n[b]\ny = \"a.x\"\n");
    assert_eq!(t.get("a", "x"), Some("b.y"));
    assert_eq!(t.get("b", "y"), Some("a.x"));
    // a self-reference and a reference to a missing entry settle on themselves
    let u = StyleTokens::parse("[c]\nme = \"c.me\"\nlost = \"gone.key\"\nvia = \"c.lost\"\n");
    assert_eq!(u.get("c", "me"), Some("c.me"));
    assert_eq!(u.get("c", "lost"), Some("gone.key"));
    assert_eq!(u.get("c", "via"), Some("gone.key"));
}

#[test]
fn long_chains_settle() {
    let mut text = String::from("[s]\n");
    for i in 0..20 {
        text.push_str(&format!("k{} = \"s.k{}\"\n", i, i + 1));
    }
    text.push_str("k20 = \"#abcdef\"\n");
    let t = StyleTokens::parse(&text);
    assert_eq!(t.get("s", "k0"), Some("#abcdef"));
}
