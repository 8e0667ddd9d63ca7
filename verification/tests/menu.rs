use bricc::{
    GuiAction, Menu, MenuElement, MenuElementType, MenuInputEventResult, ScreenMetrics,
    SettingsOptions, SettingsPane, UserInput,
};

fn metrics() -> ScreenMetrics {
    ScreenMetrics { width: 84, height: 48, char_width: 5, char_height: 9 }
}

fn settings_menu() -> Menu<SettingsOptions> {
    SettingsPane::new().menu
}

#[test]
fn down_wraps_after_len_presses() {
    let mut menu = settings_menu();
    let len = menu.options.len();
    assert_eq!(len, 7);
    let start = menu.cursor;
    for _ in 0..len {
        let r = menu.process_input(UserInput::Down);
        assert!(matches!(
            r,
            MenuInputEventResult::WrappedGuiAction(GuiAction::ScreenUpdated)
        ));
    }
    assert_eq!(menu.cursor, start);
}

#[test]
fn up_wraps_after_len_presses() {
    let mut menu = settings_menu();
    menu.process_input(UserInput::Down);
    let start = menu.cursor;
    assert_eq!(start, 1);
    for _ in 0..menu.options.len() {
        let r = menu.process_input(UserInput::Up);
        assert!(matches!(
            r,
            MenuInputEventResult::WrappedGuiAction(GuiAction::ScreenUpdated)
        ));
    }
    assert_eq!(menu.cursor, start);
}

#[test]
fn up_from_first_goes_to_last() {
    let mut menu = settings_menu();
    menu.process_input(UserInput::Up);
    assert_eq!(menu.cursor, 6);
}

#[test]
fn digit_selects_matching_option() {
    let mut menu = settings_menu();
    let r = menu.process_input(UserInput::Number(3));
    match r {
        MenuInputEventResult::MenuItemSelected(item) => {
            assert_eq!(item, SettingsOptions::Voip);
        }
        _ => panic!("digit 3 must select option 3"),
    }
    assert_eq!(menu.cursor, 0);
}

#[test]
fn digit_zero_is_noop_repaint() {
    let mut menu = settings_menu();
    let r = menu.process_input(UserInput::Number(0));
    assert!(matches!(
        r,
        MenuInputEventResult::WrappedGuiAction(GuiAction::ScreenUpdated)
    ));
}

#[test]
fn digit_past_end_is_noop_repaint() {
    let mut menu = settings_menu();
    let r = menu.process_input(UserInput::Number(8));
    assert!(matches!(
        r,
        MenuInputEventResult::WrappedGuiAction(GuiAction::ScreenUpdated)
    ));
}

#[test]
fn digit_on_empty_menu_never_crashes() {
    let mut menu: Menu<SettingsOptions> = Menu::new(Vec::new());
    for n in 0..=9u8 {
        let r = menu.process_input(UserInput::Number(n));
        assert!(matches!(
            r,
            MenuInputEventResult::WrappedGuiAction(GuiAction::ScreenUpdated)
        ));
    }
}

#[test]
fn softkey_selects_cursor_option() {
    let mut menu = settings_menu();
    menu.process_input(UserInput::Down);
    let r = menu.process_input(UserInput::SoftKey);
    match r {
        MenuInputEventResult::MenuItemSelected(item) => {
            assert_eq!(item, SettingsOptions::Cellular);
        }
        _ => panic!("SoftKey must select the option under the cursor"),
    }
}

#[test]
fn call_asks_to_pop_pane() {
    let mut menu = settings_menu();
    let r = menu.process_input(UserInput::Call);
    assert!(matches!(
        r,
        MenuInputEventResult::WrappedGuiAction(GuiAction::PopPane)
    ));
}

#[test]
fn star_hash_power_do_nothing() {
    let mut menu = settings_menu();
    for input in [UserInput::Star, UserInput::Hash, UserInput::Power] {
        let r = menu.process_input(input);
        assert!(matches!(
            r,
            MenuInputEventResult::WrappedGuiAction(GuiAction::Nothing)
        ));
    }
    assert_eq!(menu.cursor, 0);
}

#[test]
fn layout_prefixes_ordinals_and_marks_cursor() {
    let mut menu = settings_menu();
    menu.process_input(UserInput::Down);
    let layout = menu.layout(&metrics());
    assert_eq!(layout.rows.len(), 7);
    assert_eq!(layout.rows[0].label, "1: WiFi");
    assert_eq!(layout.rows[1].label, "2: Cellular");
    assert!(!layout.rows[0].selected);
    assert!(layout.rows[1].selected);
    assert_eq!(layout.rows[0].x, 5);
}

#[test]
fn layout_scrolls_cursor_row_into_view() {
    let mut menu = settings_menu();
    // Move the cursor to the last of 7 rows on a 48-pixel-high screen.
    for _ in 0..6 {
        menu.process_input(UserInput::Down);
    }
    let layout = menu.layout(&metrics());
    // max_top = 48 - 2*5 - 9 = 29; predicted = 6 * 9 = 54; offset = 54 - 29 = 25.
    assert_eq!(menu.y_offset_pixels, 25);
    // The cursor row's top (y = 5 + 54 - 25 = 34) stays within the viewport.
    assert_eq!(layout.rows[6].y, 34);
    // Scrolling back up pulls the offset back to the cursor row.
    for _ in 0..6 {
        menu.process_input(UserInput::Up);
    }
    menu.layout(&metrics());
    assert_eq!(menu.y_offset_pixels, 0);
}

#[test]
fn options_past_ninth_render_without_ordinal() {
    let mut options = Vec::new();
    for _ in 0..10 {
        options.push(SettingsOptions::Sound);
    }
    let mut menu: Menu<SettingsOptions> = Menu::new(options);
    let layout = menu.layout(&metrics());
    assert_eq!(layout.rows[8].label, "9: Sound");
    assert_eq!(layout.rows[9].label, "Sound");
}

#[test]
fn menu_item_types_are_reported() {
    assert_eq!(SettingsOptions::Wifi.menu_item_type(), MenuElementType::Button);
    assert_eq!(SettingsOptions::About.display_label(), "About Device");
}
