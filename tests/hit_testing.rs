use menu_maker::category_form::CategoryField;
use menu_maker::config::{AppSettings, MenuFile};
use menu_maker::controller::{AppState, PopupState};
use menu_maker::events::MouseClick;
use menu_maker::layout::{bar_segments, entry_at_position, inner, screen_layout, span_target, Area, Segment};
use menu_maker::menu::{CategoryConfig, MenuItemConfig};
use menu_maker::shortcuts::{
    category_bar, category_click, category_form_layout, footer_action_at, footer_bar,
    CategoryFormClick, CategoryShortcutAction, FooterAction,
};
use menu_maker::theme::Theme;

fn area(x: u16, y: u16, width: u16, height: u16) -> Area {
    Area { x, y, width, height }
}

#[test]
fn inner_shrinks_or_collapses() {
    assert_eq!(inner(area(1, 2, 10, 6), 3, 1), area(4, 3, 4, 4));
    assert_eq!(inner(area(1, 2, 5, 6), 3, 1), area(0, 0, 0, 0));
    assert_eq!(inner(area(65534, 0, 10, 10), 3, 1), area(65535, 1, 4, 8));
}

#[test]
fn footer_spans() {
    let (entries, actions) = footer_bar();
    let (segs, total) = bar_segments(&entries);
    assert_eq!(total, 83);
    assert_eq!(segs[0], Segment { start: 0, end: 6 });
    assert_eq!(segs[1], Segment { start: 9, end: 15 });
    assert_eq!(segs[6], Segment { start: 67, end: 83 });
    assert_eq!(actions[2], FooterAction::Execute);
}

#[test]
fn footer_clicks_resolve_to_shortcuts() {
    let narrow = area(0, 1, 80, 1);
    assert_eq!(footer_action_at(narrow, 0), Some(FooterAction::Quit));
    assert_eq!(footer_action_at(narrow, 10), Some(FooterAction::Edit));
    assert_eq!(footer_action_at(narrow, 7), None);
    assert_eq!(footer_action_at(narrow, 79), Some(FooterAction::ScanBin));
    let wide = area(0, 1, 100, 1);
    assert_eq!(footer_action_at(wide, 7), None);
    assert_eq!(footer_action_at(wide, 8), Some(FooterAction::Quit));
    assert_eq!(footer_action_at(wide, 91), None);
}

#[test]
fn span_target_edges() {
    let segs = vec![Segment { start: 0, end: 2 }, Segment { start: 5, end: 9 }];
    let bar = area(10, 0, 20, 1);
    // total 9 in width 20: the text starts at 10 + 5.
    assert_eq!(span_target(bar, 9, &segs, 15), Some(0));
    assert_eq!(span_target(bar, 9, &segs, 17), None);
    assert_eq!(span_target(bar, 9, &segs, 20), Some(1));
    assert_eq!(span_target(bar, 9, &segs, 24), None);
    assert_eq!(span_target(bar, 0, &segs, 15), None);
    assert_eq!(span_target(bar, 9, &Vec::new(), 15), None);
}

#[test]
fn hit_testing_repeats() {
    let segs = vec![Segment { start: 0, end: 2 }];
    let bar = area(0, 0, 2, 1);
    for col in 0..4 {
        assert_eq!(span_target(bar, 2, &segs, col), span_target(bar, 2, &segs, col));
    }
    let map = vec![vec![0usize, 1], vec![2]];
    let s = screen_layout(area(0, 0, 80, 24), 2);
    for row in 0..24 {
        assert_eq!(
            entry_at_position(&map, s.menu, &s.columns, 2, row),
            entry_at_position(&map, s.menu, &s.columns, 2, row)
        );
    }
}

fn sample_app() -> AppState {
    let item = |l: &str| MenuItemConfig { label: l.into(), cmd: l.into(), info: None, category: None, pause: None };
    let cats = vec![
        ("Left".to_string(), CategoryConfig { expanded: true, column: Some(1), items: vec![item("a"), item("b")], colors: None }),
        ("Right".to_string(), CategoryConfig { expanded: true, column: Some(2), items: vec![item("c")], colors: None }),
    ];
    let menu = MenuFile {
        categories: cats,
        app_settings: AppSettings { title: None, columns: Some(2), theme_key: Some("nord".into()) },
        custom_colors: Vec::new(),
        saved_themes: Vec::new(),
    };
    AppState::new(menu, Theme::from_name("nord").unwrap()).0
}

#[test]
fn menu_rows_under_clicks() {
    let app = sample_app();
    let s = screen_layout(area(0, 0, 80, 24), 2);
    assert_eq!(s.menu, area(1, 3, 78, 19));
    assert_eq!(s.footer, area(0, 1, 80, 1));
    assert_eq!(app.column_map, vec![vec![0, 1, 2], vec![3, 4]]);
    assert_eq!(entry_at_position(&app.column_map, s.menu, &s.columns, 2, 3), Some(0));
    assert_eq!(entry_at_position(&app.column_map, s.menu, &s.columns, 2, 5), Some(2));
    assert_eq!(entry_at_position(&app.column_map, s.menu, &s.columns, 2, 6), None);
    assert_eq!(entry_at_position(&app.column_map, s.menu, &s.columns, 60, 4), Some(4));
    assert_eq!(entry_at_position(&app.column_map, s.menu, &s.columns, 0, 3), None);
    assert_eq!(entry_at_position(&app.column_map, s.menu, &s.columns, 2, 1), None);
}

#[test]
fn clicking_a_row_activates_it() {
    let mut app = sample_app();
    let screen = screen_layout(area(0, 0, 80, 24), 2);
    app.handle_mouse(MouseClick { col: 2, row: 4, left_down: true }, &screen);
    assert_eq!(app.current_index, 1);
    assert_eq!(app.take_pending_command().unwrap().command, "a");
    app.handle_mouse(MouseClick { col: 2, row: 3, left_down: false }, &screen);
    assert_eq!(app.current_index, 1);
    app.handle_mouse(MouseClick { col: 0, row: 1, left_down: true }, &screen);
    assert!(app.should_quit);
}

#[test]
fn category_form_clicks() {
    let mut app = sample_app();
    app.open_category_form(0);
    let screen = screen_layout(area(0, 0, 80, 24), 2);
    let form = match app.active_popup.as_ref() {
        Some(PopupState::CategoryForm(f)) => f,
        _ => panic!("category form not open"),
    };
    let layout = category_form_layout(form);
    assert_eq!(layout.presets_start_line, Some(5));
    assert_eq!(layout.custom_name_line, 12);
    let (entries, actions) = category_bar(false);
    let (segs, total) = bar_segments(&entries);
    assert_eq!(actions.len(), 5);
    // Content starts at row 3 (popup content row 2, margin 1), column 3.
    let click = |col, row| category_click(&layout, &segs, &actions, total, screen.popup_bar, screen.popup_content, col, row);
    assert_eq!(click(5, 4), Some(CategoryFormClick::SelectField(CategoryField::Name)));
    assert_eq!(click(5, 9), Some(CategoryFormClick::SelectPalette(1)));
    assert_eq!(click(5, 15), Some(CategoryFormClick::SelectField(CategoryField::CustomPresetName)));
    assert_eq!(click(1, 4), None);
    let start = (80 - total) / 2;
    assert_eq!(click(start, 1), Some(CategoryFormClick::Shortcut(CategoryShortcutAction::NextField)));
    app.handle_mouse(MouseClick { col: 5, row: 9, left_down: true }, &screen);
    match app.active_popup.as_ref() {
        Some(PopupState::CategoryForm(f)) => {
            assert_eq!(f.palette_index, 1);
            assert_eq!(f.selected_field, CategoryField::Palette);
            assert_eq!(f.custom_preset_name, "Amber Pop");
        }
        _ => panic!("category form not open"),
    }
}

#[test]
fn settings_form_clicks() {
    let mut app = sample_app();
    app.prompt_settings(menu_maker::settings_form::SettingsField::Title);
    let screen = screen_layout(area(0, 0, 80, 24), 2);
    let form = match app.active_popup.as_ref() {
        Some(PopupState::SettingsForm(f)) => f,
        _ => panic!("settings form not open"),
    };
    let layout = menu_maker::shortcuts::settings_form_layout(form);
    // Heading, title, columns, blank, blank, theme heading, then the list.
    assert_eq!(layout.theme_heading_line, Some(5));
    assert_eq!(layout.theme_list_start, Some(6));
    assert_eq!(layout.theme_count, 6);
    assert_eq!(layout.custom_name_line, 14);
    assert_eq!(layout.line_count, 21);
    app.handle_mouse(MouseClick { col: 5, row: 3 + 7, left_down: true }, &screen);
    match app.active_popup.as_ref() {
        Some(PopupState::SettingsForm(f)) => {
            assert_eq!(f.theme_index, 1);
            assert_eq!(f.custom_primary, "#5E81AC");
            assert_eq!(f.selected_field, menu_maker::settings_form::SettingsField::Theme);
        }
        _ => panic!("settings form not open"),
    }
    app.handle_mouse(MouseClick { col: 5, row: 3 + 2, left_down: true }, &screen);
    match app.active_popup.as_ref() {
        Some(PopupState::SettingsForm(f)) => {
            assert_eq!(f.selected_field, menu_maker::settings_form::SettingsField::Columns);
        }
        _ => panic!("settings form not open"),
    }
}
