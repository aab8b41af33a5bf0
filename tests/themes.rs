use menu_maker::theme::{
    theme_from_file, default_saved_theme, is_preset_theme_key, parse_saved_theme_key, resolve_theme_key,
    saved_theme_key, theme_preset, SavedTheme, Theme, ThemeColorOverrides, ThemeOption,
};

fn saved(name: &str) -> SavedTheme {
    SavedTheme {
        name: name.to_string(),
        primary: "#111111".to_string(),
        accent: "#222222".to_string(),
        background: "#333333".to_string(),
        surface: "#444444".to_string(),
        text: "#555555".to_string(),
        highlight: None,
    }
}

#[test]
fn preset_keys() {
    for key in ["classic", "nord", "gruvbox", "dracula", "monokai"] {
        assert!(is_preset_theme_key(key));
    }
    assert!(!is_preset_theme_key("custom"));
    assert!(!is_preset_theme_key("Nord"));
    assert!(!is_preset_theme_key("saved:0"));
}

#[test]
fn saved_keys_round_trip() {
    assert_eq!(saved_theme_key(0), "saved:0");
    assert_eq!(saved_theme_key(12), "saved:12");
    assert_eq!(parse_saved_theme_key("saved:12"), Some(12));
    assert_eq!(parse_saved_theme_key(&saved_theme_key(987)), Some(987));
    assert_eq!(parse_saved_theme_key("saved:"), None);
    assert_eq!(parse_saved_theme_key("saved:x"), None);
    assert_eq!(parse_saved_theme_key("nord"), None);
}

#[test]
fn theme_from_name() {
    let t = Theme::from_name("nord").unwrap();
    assert_eq!(t.name, "nord");
    assert_eq!(t.primary_hex, "#5E81AC");
    assert_eq!(t.highlight_hex, "#76B3C5");
    assert_eq!(t.text_hex, "#ECEFF4");
    assert!(Theme::from_name("solarized").is_none());
}

#[test]
fn theme_from_hexes_normalizes() {
    let t = Theme::from_hexes("x".to_string(), "abcdef", "#12", " 010203 ", "#aabbcc", "a", "b");
    assert_eq!(t.primary_hex, "#abcdef");
    assert_eq!(t.accent_hex, "#ffffff");
    assert_eq!(t.highlight_hex, "#010203");
}

#[test]
fn theme_from_colors_defaults() {
    let overrides = ThemeColorOverrides {
        primary: None,
        accent: Some("#010101".to_string()),
        highlight: None,
        background: None,
        surface: None,
        text: None,
    };
    let t = Theme::from_colors("Custom", &overrides);
    assert_eq!(t.name, "Custom");
    assert_eq!(t.primary_hex, "#5E81AC");
    assert_eq!(t.highlight_hex, "#010101");
}

#[test]
fn saved_theme_highlight_defaults_to_accent() {
    let t = Theme::from_saved(&saved("mine"));
    assert_eq!(t.name, "mine");
    assert_eq!(t.highlight_hex, "#222222");
}

#[test]
fn default_saved_theme_is_nord() {
    let d = default_saved_theme();
    assert_eq!(d.name, "default");
    assert_eq!(d.primary, "#5E81AC");
    assert_eq!(d.highlight.as_deref(), Some("#76B3C5"));
}

#[test]
fn option_from_definition() {
    let d = theme_preset(2);
    let o = ThemeOption::from_definition(d.key, &d);
    assert_eq!(o.key, "gruvbox");
    assert_eq!(o.label, "Midnight Mist");
    assert_eq!(o.surface_hex, "#3B5A72");
}

#[test]
fn resolve_keeps_usable_keys() {
    let list = vec![saved("a"), saved("b")];
    assert_eq!(resolve_theme_key(Some("custom".into()), "zzz", &list), "custom");
    assert_eq!(resolve_theme_key(Some("dracula".into()), "zzz", &list), "dracula");
    assert_eq!(resolve_theme_key(Some("saved:1".into()), "zzz", &list), "saved:1");
}

#[test]
fn resolve_falls_back() {
    let list = vec![saved("a"), saved("b"), saved("b")];
    assert_eq!(resolve_theme_key(Some("saved:7".into()), "b", &list), "saved:1");
    assert_eq!(resolve_theme_key(None, "nord", &list), "custom");
    assert_eq!(resolve_theme_key(Some("bogus".into()), "whatever", &list), "custom");
}

#[test]
fn theme_file_choices() {
    let t = theme_from_file(&Some("dracula".into()), &None).unwrap();
    assert_eq!(t.name, "dracula");
    let colors = ThemeColorOverrides {
        primary: Some("#010203".into()),
        accent: None,
        highlight: None,
        background: None,
        surface: None,
        text: None,
    };
    let c = theme_from_file(&Some("unknown".into()), &Some(colors)).unwrap();
    assert_eq!(c.name, "Custom");
    assert_eq!(c.primary_hex, "#010203");
    assert!(theme_from_file(&Some("unknown".into()), &None).is_none());
    assert!(theme_from_file(&None, &None).is_none());
}
