use menu_maker::config::{filename_to_label, AppSettings, MenuFile};
use menu_maker::controller::{AppState, PopupState};
use menu_maker::item_form::ItemFormInput;
use menu_maker::keys::{KeyCode, KeyInput};
use menu_maker::menu::{CategoryConfig, DisplayEntry, MenuItemConfig};
use menu_maker::settings_form::SettingsField;
use menu_maker::theme::{SavedTheme, Theme};

fn key(code: KeyCode) -> KeyInput {
    KeyInput { code, ctrl: false }
}

fn item_cfg(label: &str, cmd: &str) -> MenuItemConfig {
    MenuItemConfig {
        label: label.into(),
        cmd: cmd.into(),
        info: None,
        category: None,
        pause: None,
    }
}

fn cat_cfg(column: Option<u16>, expanded: bool, items: Vec<MenuItemConfig>) -> CategoryConfig {
    CategoryConfig { expanded, column, items, colors: None }
}

fn saved(name: &str) -> SavedTheme {
    SavedTheme {
        name: name.into(),
        primary: "#111111".into(),
        accent: "#222222".into(),
        background: "#333333".into(),
        surface: "#444444".into(),
        text: "#555555".into(),
        highlight: None,
    }
}

fn menu(
    categories: Vec<(String, CategoryConfig)>,
    columns: Option<u16>,
    key: Option<&str>,
    saved_themes: Vec<SavedTheme>,
) -> MenuFile {
    MenuFile {
        categories,
        app_settings: AppSettings { title: None, columns, theme_key: key.map(|k| k.to_string()) },
        custom_colors: Vec::new(),
        saved_themes,
    }
}

fn empty_app() -> AppState {
    AppState::new(menu(Vec::new(), None, None, Vec::new()), Theme::from_name("nord").unwrap()).0
}

fn sample_app() -> AppState {
    let cats = vec![
        ("Zeta".to_string(), cat_cfg(Some(1), true, vec![item_cfg("Z1", "z1")])),
        ("Alpha".to_string(), cat_cfg(Some(2), true, vec![item_cfg("A1", "a1"), item_cfg("A2", "a2")])),
        ("Beta".to_string(), cat_cfg(Some(1), false, vec![item_cfg("B1", "b1")])),
    ];
    AppState::new(menu(cats, Some(2), Some("nord"), vec![saved("default")]), Theme::from_name("nord").unwrap()).0
}

#[test]
fn startup_adds_default_theme_and_title() {
    let (app, save) =
        AppState::new(menu(Vec::new(), Some(9), None, Vec::new()), Theme::from_name("nord").unwrap());
    assert!(save);
    assert_eq!(app.saved_themes.len(), 1);
    assert_eq!(app.saved_themes[0].name, "default");
    assert_eq!(app.column_count, 6);
    assert_eq!(app.title, "Menu Maker");
    assert_eq!(app.theme_key, "custom");
    assert_eq!(app.theme.name, "nord");
    let (again, save_again) =
        AppState::new(menu(Vec::new(), Some(0), None, vec![saved("DEFAULT")]), Theme::from_name("nord").unwrap());
    assert!(!save_again);
    assert_eq!(again.column_count, 1);
}

#[test]
fn startup_resolves_saved_key() {
    let (app, _) = AppState::new(
        menu(Vec::new(), None, Some("saved:0"), vec![saved("default")]),
        Theme::from_name("nord").unwrap(),
    );
    assert_eq!(app.theme_key, "saved:0");
    assert_eq!(app.theme.name, "default");
    assert_eq!(app.theme.primary_hex, "#111111");
}

#[test]
fn display_is_sorted_by_column_then_name() {
    let app = sample_app();
    let names: Vec<&str> = app.categories.iter().map(|c| c.name.as_str()).collect();
    assert_eq!(names, vec!["Beta", "Zeta", "Alpha"]);
    assert_eq!(
        app.display_entries,
        vec![
            DisplayEntry::Category { category_index: 0 },
            DisplayEntry::Category { category_index: 1 },
            DisplayEntry::Item { category_index: 1, item_index: 0 },
            DisplayEntry::Category { category_index: 2 },
            DisplayEntry::Item { category_index: 2, item_index: 0 },
            DisplayEntry::Item { category_index: 2, item_index: 1 },
        ]
    );
    assert_eq!(app.column_map, vec![vec![0, 1, 2], vec![3, 4, 5]]);
}

#[test]
fn single_column_holds_every_row() {
    let cats = vec![("A".to_string(), cat_cfg(Some(5), true, vec![item_cfg("x", "x")]))];
    let (app, _) = AppState::new(menu(cats, Some(1), None, vec![saved("default")]), Theme::from_name("nord").unwrap());
    assert_eq!(app.column_map, vec![vec![0, 1]]);
}

#[test]
fn navigation_wraps_and_round_trips() {
    let mut app = sample_app();
    assert_eq!(app.current_index, 0);
    app.move_selection_up();
    assert_eq!(app.current_index, 5);
    app.move_selection_down();
    assert_eq!(app.current_index, 0);
    for start in 0..6 {
        app.current_index = start;
        app.move_selection_down();
        app.move_selection_up();
        assert_eq!(app.current_index, start);
        app.move_selection_up();
        app.move_selection_down();
        assert_eq!(app.current_index, start);
    }
}

#[test]
fn navigation_on_empty_list_is_a_no_op() {
    let mut app = empty_app();
    app.move_selection_down();
    app.move_selection_up();
    assert_eq!(app.current_index, 0);
}

#[test]
fn keys_drive_navigation_and_quit() {
    let mut app = sample_app();
    app.handle_key(key(KeyCode::Down));
    app.handle_key(key(KeyCode::Char('j')));
    assert_eq!(app.current_index, 2);
    app.handle_key(key(KeyCode::Char('k')));
    assert_eq!(app.current_index, 1);
    app.handle_key(key(KeyCode::Char('q')));
    assert!(app.should_quit);
}

#[test]
fn toggling_a_header_collapses_it() {
    let mut app = sample_app();
    app.current_index = 1;
    app.handle_key(key(KeyCode::Char(' ')));
    assert!(!app.categories[1].expanded);
    assert_eq!(app.display_entries.len(), 5);
    assert!(app.menu_dirty);
}

#[test]
fn activating_an_item_queues_its_command() {
    let mut app = sample_app();
    app.current_index = 2;
    app.handle_key(key(KeyCode::Enter));
    let cmd = app.take_pending_command().unwrap();
    assert_eq!(cmd.command, "z1");
    assert!(!cmd.pause);
    assert_eq!(app.status_message.as_deref(), Some("Running Z1"));
    assert!(app.take_pending_command().is_none());
}

#[test]
fn deleting_last_item_removes_category() {
    let mut app = sample_app();
    app.current_index = 2;
    app.delete_selected_item();
    let names: Vec<&str> = app.categories.iter().map(|c| c.name.as_str()).collect();
    assert_eq!(names, vec!["Beta", "Alpha"]);
    assert_eq!(app.status_message.as_deref(), Some("Item deleted"));
    assert!(app.current_index < app.display_entries.len());
}

#[test]
fn status_line() {
    let mut app = sample_app();
    app.current_index = 1;
    assert_eq!(app.status_text(), "Item 2/6 | Theme: nord");
    app.set_status("Hello".into());
    assert_eq!(app.status_text(), "Item 2/6 | Theme: nord | Hello");
    assert_eq!(empty_app().status_text(), "Item 0/0 | Theme: nord");
}

#[test]
fn new_item_in_new_category_end_to_end() {
    let mut app = empty_app();
    app.open_item_form(None);
    for c in "Build".chars() {
        app.handle_key(key(KeyCode::Char(c)));
    }
    app.handle_key(key(KeyCode::Tab));
    for c in "make".chars() {
        app.handle_key(key(KeyCode::Char(c)));
    }
    app.handle_key(key(KeyCode::Tab));
    app.handle_key(key(KeyCode::Tab));
    app.handle_key(key(KeyCode::Delete));
    for c in "Dev".chars() {
        app.handle_key(key(KeyCode::Char(c)));
    }
    app.handle_key(key(KeyCode::Enter));
    assert!(app.active_popup.is_none());
    assert_eq!(app.categories.len(), 1);
    let dev = &app.categories[0];
    assert_eq!(dev.name, "Dev");
    assert!(dev.expanded);
    assert_eq!(dev.column, 1);
    assert_eq!(dev.items.len(), 1);
    assert_eq!(dev.items[0].label, "Build");
    assert_eq!(dev.items[0].cmd, "make");
    assert_eq!(
        app.display_entries,
        vec![
            DisplayEntry::Category { category_index: 0 },
            DisplayEntry::Item { category_index: 0, item_index: 0 },
        ]
    );
    assert_eq!(app.status_message.as_deref(), Some("Item added"));
}

fn input(label: &str, command: &str, category: &str, target: Option<(usize, usize)>) -> ItemFormInput {
    ItemFormInput {
        target,
        label: label.into(),
        command: command.into(),
        info: " note ".into(),
        category: category.into(),
        fallback_category: "".into(),
        pause: true,
    }
}

#[test]
fn item_validation_errors() {
    let mut app = sample_app();
    assert_eq!(app.apply_item_form_input(input("  ", "x", "A", None)), Err("Label is required".to_string()));
    assert_eq!(app.apply_item_form_input(input("L", " ", "A", None)), Err("Command is required".to_string()));
    assert_eq!(
        app.apply_item_form_input(input("L", "c", "A", Some((9, 0)))),
        Err("Item no longer exists".to_string())
    );
    assert_eq!(app.categories.len(), 3);
}

#[test]
fn item_blank_category_goes_to_general() {
    let mut app = sample_app();
    assert_eq!(app.apply_item_form_input(input(" L ", " c ", "  ", None)), Ok("Item added".to_string()));
    let general = app.categories.iter().find(|c| c.name == "General").unwrap();
    assert_eq!(general.items[0].label, "L");
    assert_eq!(general.items[0].cmd, "c");
    assert_eq!(general.items[0].info, "note");
    assert!(general.items[0].pause);
}

#[test]
fn item_edit_moves_between_categories() {
    let mut app = sample_app();
    // "Zeta" sits at index 1 after sorting, with one item.
    assert_eq!(app.apply_item_form_input(input("Z9", "z9", "Alpha", Some((1, 0)))), Ok("Item updated".to_string()));
    assert!(app.categories.iter().all(|c| c.name != "Zeta"));
    let alpha = app.categories.iter().find(|c| c.name == "Alpha").unwrap();
    assert_eq!(alpha.items.len(), 3);
    assert_eq!(alpha.items[2].label, "Z9");
}

#[test]
fn category_form_new_colors_end_to_end() {
    let mut app = sample_app();
    app.open_category_form(1);
    let before = app.custom_colors.len();
    if let Some(PopupState::CategoryForm(form)) = app.active_popup.as_mut() {
        form.custom_preset_name = "Signal".into();
        form.custom_preset_background = "ff0000".into();
        form.custom_preset_text = "00ff00".into();
        form.selected_field = menu_maker::category_form::CategoryField::Name;
    } else {
        panic!("category form not open");
    }
    app.handle_key(key(KeyCode::Enter));
    assert!(app.active_popup.is_none());
    assert_eq!(app.custom_colors.len(), before + 1);
    let pair = &app.custom_colors[before];
    assert_eq!(pair.name.as_deref(), Some("Signal"));
    let zeta = app.categories.iter().find(|c| c.name == "Zeta").unwrap();
    let colors = zeta.colors.as_ref().unwrap();
    assert_eq!(colors.background.as_deref(), Some("#ff0000"));
    assert_eq!(colors.text.as_deref(), Some("#00ff00"));
    assert_eq!(app.status_message.as_deref(), Some("Theme 'Signal' added | Category updated"));
}

#[test]
fn category_rename_collision_changes_nothing() {
    let mut app = sample_app();
    app.open_category_form(1);
    if let Some(PopupState::CategoryForm(form)) = app.active_popup.as_mut() {
        form.name = "Alpha".into();
        form.custom_preset_background = "010101".into();
        form.custom_preset_text = "020202".into();
        form.selected_field = menu_maker::category_form::CategoryField::Name;
    }
    app.handle_key(key(KeyCode::Enter));
    assert_eq!(app.custom_colors.len(), 0);
    match app.active_popup.as_ref() {
        Some(PopupState::CategoryForm(form)) => {
            assert_eq!(form.error.as_deref(), Some("Category name already exists"));
        }
        _ => panic!("form should stay open"),
    }
}

#[test]
fn category_column_must_be_a_number() {
    let mut app = sample_app();
    let r = app.apply_category_form_input(menu_maker::category_form::CategoryFormInput {
        category_index: 0,
        name: "".into(),
        column_value: "two".into(),
        background: "".into(),
        text_color: "".into(),
    });
    assert_eq!(r, Err("Column must be a number".to_string()));
    let r = app.apply_category_form_input(menu_maker::category_form::CategoryFormInput {
        category_index: 0,
        name: " Renamed ".into(),
        column_value: "40".into(),
        background: "".into(),
        text_color: "".into(),
    });
    assert_eq!(r, Ok("Category updated".to_string()));
    let renamed = app.categories.iter().find(|c| c.name == "Renamed").unwrap();
    assert_eq!(renamed.column, 6);
    assert!(renamed.colors.is_none());
}

#[test]
fn settings_apply_preset_end_to_end() {
    let (mut app, _) = AppState::new(
        menu(Vec::new(), None, Some("classic"), vec![saved("default")]),
        Theme::from_name("classic").unwrap(),
    );
    app.prompt_settings(SettingsField::Theme);
    if let Some(PopupState::SettingsForm(form)) = app.active_popup.as_mut() {
        form.theme_index = 1;
        form.custom_primary.clear();
        form.custom_accent.clear();
        form.custom_highlight.clear();
        form.custom_background.clear();
        form.custom_surface.clear();
        form.custom_text.clear();
        form.custom_theme_name.clear();
    } else {
        panic!("settings form not open");
    }
    app.handle_key(key(KeyCode::Enter));
    assert!(app.active_popup.is_none());
    assert_eq!(app.theme_key, "nord");
    assert_eq!(app.theme.primary_hex, "#5E81AC");
    assert_eq!(app.saved_themes.len(), 1);
    assert_eq!(app.status_message.as_deref(), Some("Settings updated"));
}

fn settings_input(theme_key: &str, colors: [&str; 6], name: &str) -> menu_maker::settings_form::SettingsFormInput {
    menu_maker::settings_form::SettingsFormInput {
        title: "".into(),
        columns: "".into(),
        theme_key: theme_key.into(),
        custom_primary: colors[0].into(),
        custom_accent: colors[1].into(),
        custom_background: colors[3].into(),
        custom_surface: colors[4].into(),
        custom_text: colors[5].into(),
        custom_highlight: colors[2].into(),
        custom_theme_name: name.into(),
    }
}

#[test]
fn settings_custom_theme_is_saved_by_name() {
    let mut app = sample_app();
    let colors = ["010101", "020202", "030303", "040404", "050505", "060606"];
    let r = app.apply_settings_form_input(settings_input("nord", colors, "Mine"));
    assert_eq!(r, Ok("Settings updated".to_string()));
    assert_eq!(app.saved_themes.len(), 2);
    assert_eq!(app.saved_themes[1].name, "Mine");
    assert_eq!(app.theme_key, "saved:1");
    assert_eq!(app.theme.name, "Mine");
    assert_eq!(app.theme.highlight_hex, "#030303");
}

#[test]
fn settings_unnamed_custom_theme_stays_transient() {
    let mut app = sample_app();
    let colors = ["010101", "020202", "030303", "040404", "050505", "060606"];
    let r = app.apply_settings_form_input(settings_input("nord", colors, ""));
    assert!(r.is_ok());
    assert_eq!(app.theme_key, "custom");
    assert_eq!(app.theme.name, "Custom Theme");
    assert_eq!(app.saved_themes.len(), 1);
}

#[test]
fn settings_custom_theme_needs_every_color() {
    let mut app = sample_app();
    let colors = ["010101", "", "030303", "040404", "050505", "060606"];
    let r = app.apply_settings_form_input(settings_input("nord", colors, "Mine"));
    assert_eq!(r, Err("Accent color is required when creating a custom theme".to_string()));
    assert_eq!(app.saved_themes.len(), 1);
    let mut bad = settings_input("nord", ["", "", "", "", "", ""], "");
    bad.columns = "x".into();
    assert_eq!(app.apply_settings_form_input(bad), Err("Columns must be a number".to_string()));
}

#[test]
fn settings_custom_key_without_colors_is_refused() {
    let mut app = sample_app();
    let r = app.apply_settings_form_input(settings_input("custom", ["", "", "", "", "", ""], ""));
    assert_eq!(r, Err("Enter custom colors to create a custom theme".to_string()));
    let r = app.apply_settings_form_input(settings_input("saved:5", ["", "", "", "", "", ""], ""));
    assert_eq!(r, Err("Saved theme not found".to_string()));
}

#[test]
fn deleting_saved_theme_renumbers_keys() {
    let mut app = sample_app();
    app.saved_themes.push(saved("one"));
    app.saved_themes.push(saved("two"));
    app.theme_key = "saved:2".into();
    app.delete_saved_theme(1);
    assert_eq!(app.saved_themes.len(), 2);
    assert_eq!(app.theme_key, "saved:1");
    app.delete_saved_theme(1);
    assert_eq!(app.theme_key, "nord");
    assert_eq!(app.theme.primary_hex, "#5E81AC");
    app.theme_key = "saved:0".into();
    app.delete_saved_theme(5);
    assert_eq!(app.theme_key, "saved:0");
}

#[test]
fn theme_options_list() {
    let mut app = sample_app();
    let options = app.theme_options();
    assert_eq!(options.len(), 6);
    assert_eq!(options[5].key, "saved:0");
    app.theme_key = "custom".into();
    let options = app.theme_options();
    assert_eq!(options.len(), 7);
    assert_eq!(options[6].label, "Custom Theme");
}

#[test]
fn presets_include_named_and_numbered_pairs() {
    let mut app = sample_app();
    app.custom_colors.push(menu_maker::menu::NamedColorPair {
        name: None,
        background: Some("#010101".into()),
        text: Some("#020202".into()),
    });
    app.custom_colors.push(menu_maker::menu::NamedColorPair {
        name: Some("Half".into()),
        background: Some("#010101".into()),
        text: None,
    });
    let presets = app.available_color_presets();
    assert_eq!(presets.len(), 6);
    assert_eq!(presets[5].name, "Custom Theme 1");
    assert_eq!(presets[5].custom_index, Some(0));
    assert_eq!(app.delete_custom_category_preset(0), Ok("Theme 'Custom Theme 1' deleted".to_string()));
    assert_eq!(app.delete_custom_category_preset(4), Err("Custom theme not found".to_string()));
}

#[test]
fn file_names_become_labels() {
    assert_eq!(filename_to_label("my_tool-x"), "My Tool X");
    assert_eq!(filename_to_label("  __backup  now"), "Backup Now");
    assert_eq!(filename_to_label("ßtool"), "SStool");
    assert_eq!(filename_to_label(""), "");
}

#[test]
fn scanned_items_skip_known_commands() {
    let mut app = sample_app();
    let added = app.add_scanned_items(vec!["run_me".into(), "run_me".into()]);
    assert_eq!(added, 1);
    let bin = app.categories.iter().find(|c| c.name == "Bin Executables").unwrap();
    assert_eq!(bin.items[0].label, "Run Me");
    assert_eq!(bin.items[0].cmd, "~/.local/menu-maker/bin/run_me");
    assert_eq!(bin.items[0].info, "Executable: run_me");
    assert_eq!(app.add_scanned_items(vec!["run_me".into()]), 0);
}

#[test]
fn default_document() {
    let m = MenuFile::default_data();
    assert_eq!(m.categories[0].0, "System Tools");
    assert_eq!(m.categories[0].1.items[0].cmd, "htop");
    assert_eq!(m.app_settings.theme_key.as_deref(), Some("saved:0"));
    let (app, save) = AppState::new(m, Theme::from_name("nord").unwrap());
    assert!(!save);
    assert_eq!(app.theme_key, "saved:0");
    let back = app.to_menu_file();
    assert_eq!(back.categories[0].1.items[0].info.as_deref(), Some("Interactive process viewer"));
    assert_eq!(back.categories[0].1.items[0].category.as_deref(), Some("System Tools"));
}
