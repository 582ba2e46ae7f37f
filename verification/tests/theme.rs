use omarchy_theme::theme::{
    normalize_slug, pick_layer, replace_whitespace, theme_changed, theme_name, Layer,
};
use omarchy_theme::font::resolve_ui_font;
use omarchy_theme::{Error, Signature};

fn sig(name: &str, colors: &str) -> Signature {
    Signature::new(Some(name.to_string()), Some(colors.to_string()), None, Some("/wall.png".to_string()))
}

#[test]
fn signature_equality_is_by_content() {
    assert_eq!(sig("one", "a = #000000"), sig("one", "a = #000000"));
    assert_ne!(sig("one", "a = #000000"), sig("two", "a = #000000"));
    assert_ne!(sig("one", "a = #000000"), sig("one", "a = #000001"));
    assert_eq!(Signature::default(), Signature::new(None, None, None, None));
    let c = sig("one", "x").clone();
    assert_eq!(c, sig("one", "x"));
}

#[test]
fn change_is_reported_only_with_colors_present() {
    let loaded = sig("one", "a = #000000");
    let now = sig("two", "a = #0000ff");
    assert!(theme_changed(true, &now, &loaded));
    // swap in flight: the staged directory is momentarily gone
    assert!(!theme_changed(false, &now, &loaded));
    assert!(!theme_changed(true, &loaded.clone(), &loaded));
}

#[test]
fn theme_name_is_trimmed() {
    assert_eq!(theme_name("catppuccin\n"), Some("catppuccin".to_string()));
    assert_eq!(theme_name("  \n"), None);
    assert_eq!(theme_name(""), None);
}

#[test]
fn slugs_are_normalized_and_guarded() {
    assert_eq!(normalize_slug("Catppuccin Latte"), Some("catppuccin-latte".to_string()));
    assert_eq!(normalize_slug("ÉTÉ"), Some("été".to_string()));
    assert_eq!(normalize_slug("tokyo-night"), Some("tokyo-night".to_string()));
    assert_eq!(normalize_slug(""), None);
    assert_eq!(normalize_slug("../etc"), None);
    assert_eq!(normalize_slug("a/b"), None);
    assert_eq!(normalize_slug("a\\b"), None);
    assert_eq!(normalize_slug(".hidden"), None);
    assert_eq!(normalize_slug("Rose\tPine Moon"), Some("rose-pine-moon".to_string()));
    assert_eq!(replace_whitespace("a b  c\u{3000}d"), "a-b--c-d");
}

#[test]
fn user_layer_wins_per_file() {
    assert_eq!(pick_layer(true, true), Some(Layer::User));
    assert_eq!(pick_layer(true, false), Some(Layer::User));
    assert_eq!(pick_layer(false, true), Some(Layer::Stock));
    assert_eq!(pick_layer(false, false), None);
}

#[test]
fn font_family_is_first_alias() {
    let f = resolve_ui_font(Some("JetBrainsMono Nerd Font, JetBrainsMono NF\n"), None).unwrap();
    assert_eq!(f.family, "JetBrainsMono Nerd Font");
    assert!(f.file.is_none());
    let path = std::path::PathBuf::from("/usr/share/fonts/x.ttf");
    let g = resolve_ui_font(Some("Iosevka"), Some(path.clone())).unwrap();
    assert_eq!(g.family, "Iosevka");
    assert_eq!(g.file, Some(path));
    assert!(resolve_ui_font(Some(" , Fallback"), None).is_none());
    assert!(resolve_ui_font(Some(""), None).is_none());
    assert!(resolve_ui_font(None, None).is_none());
}

#[test]
fn error_messages() {
    assert_eq!(Error::NoTheme.describe(), "no omarchy theme is currently staged");
    assert_eq!(
        Error::MissingKey("accent".to_string()).describe(),
        "palette key `accent` could not be resolved"
    );
    assert_eq!(Error::Parse("HOME is unset".to_string()).describe(), "parse error: HOME is unset");
    let io = Error::from(std::io::Error::new(std::io::ErrorKind::Other, "boom"));
    assert!(matches!(io, Error::Io(_)));
    assert_eq!(io.describe(), "io error: boom");
}
