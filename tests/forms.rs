use menu_maker::category_form::{CategoryField, CategoryFormState, FormKeyResult};
use menu_maker::item_form::{ItemField, ItemFormKeyResult, ItemFormState};
use menu_maker::keys::{KeyCode, KeyInput};
use menu_maker::menu::{CategoryState, ColorConfig, ColorPreset};
use menu_maker::settings_form::{SettingsField, SettingsFormKeyResult, SettingsFormState};
use menu_maker::theme::{Theme, ThemeOption};

fn key(code: KeyCode) -> KeyInput {
    KeyInput { code, ctrl: false }
}

fn typed(c: char) -> KeyInput {
    key(KeyCode::Char(c))
}

fn new_item_form() -> ItemFormState {
    ItemFormState::new(
        None,
        String::new(),
        String::new(),
        String::new(),
        "General".into(),
        "General".into(),
        false,
        vec!["General".into()],
    )
}

#[test]
fn item_form_focus_cycles() {
    let mut f = new_item_form();
    assert_eq!(f.mode_label, "New Menu Item");
    let order = [
        ItemField::Command,
        ItemField::Description,
        ItemField::Category,
        ItemField::Pause,
        ItemField::Label,
    ];
    for expected in order {
        f.handle_key(key(KeyCode::Tab));
        assert_eq!(f.selected_field, expected);
    }
    f.handle_key(key(KeyCode::Up));
    assert_eq!(f.selected_field, ItemField::Pause);
    f.handle_key(key(KeyCode::Down));
    assert_eq!(f.selected_field, ItemField::Label);
}

#[test]
fn item_form_text_editing() {
    let mut f = new_item_form();
    for c in "Buildx".chars() {
        f.handle_key(typed(c));
    }
    f.handle_key(key(KeyCode::Backspace));
    assert_eq!(f.label, "Build");
    f.handle_key(KeyInput { code: KeyCode::Char('z'), ctrl: true });
    assert_eq!(f.label, "Build");
    f.handle_key(key(KeyCode::Delete));
    assert_eq!(f.label, "");
}

#[test]
fn item_form_pause_toggles_with_space() {
    let mut f = new_item_form();
    f.selected_field = ItemField::Pause;
    f.handle_key(typed(' '));
    assert!(f.pause);
    f.handle_key(typed('x'));
    assert!(f.pause);
    f.handle_key(typed(' '));
    assert!(!f.pause);
}

#[test]
fn item_form_submit_and_cancel() {
    let mut f = new_item_form();
    f.label = "L".into();
    match f.handle_key(key(KeyCode::Enter)) {
        ItemFormKeyResult::Submit(input) => {
            assert_eq!(input.label, "L");
            assert_eq!(input.category, "General");
            assert!(input.target.is_none());
        }
        _ => panic!("expected a submission"),
    }
    assert!(matches!(f.handle_key(key(KeyCode::Esc)), ItemFormKeyResult::Cancel));
}

fn category(name: &str, colors: Option<(&str, &str)>) -> CategoryState {
    CategoryState {
        name: name.to_string(),
        expanded: true,
        column: 2,
        colors: colors.map(|(b, t)| ColorConfig {
            background: Some(b.to_string()),
            text: Some(t.to_string()),
        }),
        items: Vec::new(),
    }
}

fn presets() -> Vec<ColorPreset> {
    vec![
        ColorPreset::new("Teal Glow".into(), "#034e68", "#caf0f8"),
        ColorPreset::from_custom("Mine".into(), "ff0000", "00ff00", 0),
    ]
}

#[test]
fn preset_matching_normalizes() {
    let p = ColorPreset::new("P".into(), "034E68", "#CAF0F8");
    assert_eq!(p.background, "#034E68");
    assert!(p.matches("#034e68", "caf0f8"));
    assert!(!p.matches("#034e69", "caf0f8"));
}

#[test]
fn category_form_starts_on_matching_preset() {
    let c = category("Tools", Some(("FF0000", "#00FF00")));
    let f = CategoryFormState::new(0, &c, presets());
    assert_eq!(f.palette_index, 1);
    assert_eq!(f.custom_preset_name, "Mine");
    assert_eq!(f.custom_preset_background, "#FF0000");
    assert_eq!(f.column_value, "2");
    assert!(f.has_deletable_preset());
    assert_eq!(f.current_custom_preset_index(), Some(0));
}

#[test]
fn category_form_default_preset_when_list_empty() {
    let c = category("Tools", None);
    let f = CategoryFormState::new(0, &c, Vec::new());
    assert_eq!(f.color_presets.len(), 1);
    assert_eq!(f.color_presets[0].name, "Default");
    assert_eq!(f.custom_preset_background, "");
}

#[test]
fn category_form_palette_moves_and_copies() {
    let c = category("Tools", None);
    let mut f = CategoryFormState::new(0, &c, presets());
    f.handle_key(key(KeyCode::Tab));
    f.handle_key(key(KeyCode::Tab));
    assert_eq!(f.selected_field, CategoryField::Palette);
    f.handle_key(key(KeyCode::Right));
    assert_eq!(f.palette_index, 1);
    assert_eq!(f.custom_preset_background, "#ff0000");
    f.handle_key(key(KeyCode::Right));
    assert_eq!(f.palette_index, 0);
    f.handle_key(key(KeyCode::Left));
    assert_eq!(f.palette_index, 1);
    assert!(matches!(f.handle_key(typed('d')), FormKeyResult::DeletePreset(0)));
}

#[test]
fn category_submission_creates_preset_for_new_colors() {
    let c = category("Tools", None);
    let mut f = CategoryFormState::new(0, &c, presets());
    f.custom_preset_background = "123456".into();
    f.custom_preset_text = "abcdef".into();
    f.custom_preset_name = "  Ocean ".into();
    let p = f.build_submission().ok().unwrap();
    assert_eq!(p.form.background, "#123456");
    assert_eq!(p.form.text_color, "#abcdef");
    let np = p.new_preset.unwrap();
    assert_eq!(np.name, "Ocean");
    assert_eq!(np.background, "#123456");
}

#[test]
fn category_submission_reuses_existing_preset() {
    let c = category("Tools", None);
    let mut f = CategoryFormState::new(0, &c, presets());
    f.custom_preset_background = "#FF0000".into();
    f.custom_preset_text = "00FF00".into();
    let p = f.build_submission().ok().unwrap();
    assert!(p.new_preset.is_none());
}

#[test]
fn category_submission_rejects_bad_color() {
    let c = category("Tools", None);
    let mut f = CategoryFormState::new(0, &c, presets());
    f.custom_preset_background = "#12".into();
    assert_eq!(f.build_submission().err().unwrap(), "Colors must use #RRGGBB format");
    f.selected_field = CategoryField::Name;
    assert!(matches!(f.handle_key(key(KeyCode::Enter)), FormKeyResult::Continue));
    assert!(f.error.is_some());
}

fn option(key: &str, label: &str, primary: &str) -> ThemeOption {
    ThemeOption {
        key: key.into(),
        label: label.into(),
        primary_hex: primary.into(),
        accent_hex: "#000001".into(),
        background_hex: "#000002".into(),
        surface_hex: "#000003".into(),
        text_hex: "#000004".into(),
        highlight_hex: "#000005".into(),
    }
}

fn settings_form(key: &str) -> SettingsFormState {
    let options = vec![
        option("nord", "Nord", "#5E81AC"),
        option("saved:0", "Mine", "#101010"),
    ];
    let theme = Theme::from_name("nord").unwrap();
    SettingsFormState::new("T".into(), 3, key, options, SettingsField::Theme, &theme, false)
}

#[test]
fn settings_form_selects_active_theme() {
    let f = settings_form("saved:0");
    assert_eq!(f.theme_index, 1);
    assert_eq!(f.custom_primary, "#101010");
    assert_eq!(f.custom_theme_name, "Mine");
    assert_eq!(f.columns_value, "3");
    assert_eq!(f.current_deletable_theme_index(), Some(0));
    let g = settings_form("unknown");
    assert_eq!(g.theme_index, 0);
    assert_eq!(g.custom_theme_name, "");
}

#[test]
fn settings_form_theme_keys() {
    let mut f = settings_form("nord");
    f.handle_key(key(KeyCode::Right));
    assert_eq!(f.theme_index, 1);
    assert!(matches!(f.handle_key(typed('d')), SettingsFormKeyResult::DeleteSavedTheme(0)));
    f.handle_key(key(KeyCode::Right));
    assert_eq!(f.theme_index, 0);
    assert_eq!(f.custom_theme_name, "");
    assert!(matches!(f.handle_key(typed('d')), SettingsFormKeyResult::Continue));
}

#[test]
fn settings_form_focus_order() {
    let mut f = settings_form("nord");
    let order = [
        SettingsField::CustomName,
        SettingsField::CustomPrimary,
        SettingsField::CustomAccent,
        SettingsField::CustomHighlight,
        SettingsField::CustomBackground,
        SettingsField::CustomSurface,
        SettingsField::CustomText,
        SettingsField::Title,
        SettingsField::Columns,
        SettingsField::Theme,
    ];
    for expected in order {
        f.handle_key(key(KeyCode::Tab));
        assert_eq!(f.selected_field, expected);
    }
}

#[test]
fn settings_form_submits_selected_key() {
    let mut f = settings_form("nord");
    match f.handle_key(key(KeyCode::Enter)) {
        SettingsFormKeyResult::Submit(input) => {
            assert_eq!(input.theme_key, "nord");
            assert_eq!(input.title, "T");
            assert_eq!(input.columns, "3");
        }
        _ => panic!("expected a submission"),
    }
}

#[test]
fn active_value_points_at_focused_field() {
    let mut f = new_item_form();
    f.selected_field = ItemField::Command;
    f.active_value_mut().unwrap().push_str("ls");
    assert_eq!(f.command, "ls");
    f.selected_field = ItemField::Pause;
    assert!(f.active_value_mut().is_none());
    let c = category("Tools", None);
    let mut g = CategoryFormState::new(0, &c, presets());
    g.selected_field = CategoryField::Column;
    g.active_value_mut().unwrap().clear();
    assert_eq!(g.column_value, "");
    g.selected_field = CategoryField::Palette;
    assert!(g.active_value_mut().is_none());
    let mut h = settings_form("nord");
    assert!(h.active_value_mut().is_none());
    h.selected_field = SettingsField::CustomName;
    h.active_value_mut().unwrap().push('x');
    assert_eq!(h.custom_theme_name, "x");
}

#[test]
fn selected_theme_colors_fill_the_fields() {
    let mut f = settings_form("nord");
    f.theme_index = 1;
    f.custom_primary.clear();
    let g = f.with_selected_theme_colors();
    assert_eq!(g.custom_primary, "#101010");
    assert_eq!(g.custom_theme_name, "Mine");
    assert!(menu_maker::config::default_true());
}
