use bricc::{GuiAction, KeyboardType, TextInputHelper, TextInputResult, UserInput};

fn editor(keyboard: KeyboardType, initial: &str) -> TextInputHelper {
    TextInputHelper::new(
        String::from("Enter:"),
        String::from(initial),
        keyboard,
        1000,
        0,
    )
}

#[test]
fn multi_tap_commit_on_timeout() {
    // Two presses of key 2 preview 'b'; the timeout commits it.
    let mut ed = editor(KeyboardType::TextStartLower, "");
    assert!(ed.process_input(UserInput::Number(2), 10).is_none());
    assert!(ed.process_input(UserInput::Number(2), 20).is_none());
    assert_eq!(ed.tick(1500), GuiAction::ScreenUpdated);
    assert_eq!(ed.text, "b");
    assert_eq!(ed.multi_press_sequence, "");
    assert_eq!(ed.multi_press_count, 0);
    match ed.process_input(UserInput::SoftKey, 1600) {
        Some(TextInputResult::Edited(s)) => assert_eq!(s, "b"),
        _ => panic!("SoftKey must return the committed text"),
    }
}

#[test]
fn multi_tap_key_switch_commits_previous() {
    // Key 2 then key 3 before the timeout: 'a' is committed and key 3's
    // sequence becomes pending at its first candidate.
    let mut ed = editor(KeyboardType::TextStartLower, "");
    ed.process_input(UserInput::Number(2), 10);
    ed.process_input(UserInput::Number(3), 20);
    assert_eq!(ed.text, "a");
    assert_eq!(ed.multi_press_sequence, "defDEF");
    assert_eq!(ed.multi_press_count, 0);
}

#[test]
fn multi_tap_preview_wraps_around() {
    // "abcABC" has six candidates; a seventh press is back at 'a'.
    let mut ed = editor(KeyboardType::TextStartLower, "");
    for t in 0..7u64 {
        ed.process_input(UserInput::Number(2), t);
    }
    assert_eq!(ed.multi_press_count, 0);
    assert_eq!(ed.layout().preview, Some('a'));
}

#[test]
fn tick_before_timeout_does_nothing() {
    let mut ed = editor(KeyboardType::TextStartLower, "");
    ed.process_input(UserInput::Number(2), 0);
    assert_eq!(ed.tick(1000), GuiAction::Nothing);
    assert_eq!(ed.text, "");
    assert_eq!(ed.multi_press_sequence, "abcABC");
}

#[test]
fn softkey_does_not_flush_pending_preview() {
    // A still-previewed character is not committed by SoftKey.
    let mut ed = editor(KeyboardType::TextStartLower, "");
    ed.process_input(UserInput::Number(2), 0);
    match ed.process_input(UserInput::SoftKey, 10) {
        Some(TextInputResult::Edited(s)) => assert_eq!(s, ""),
        _ => panic!("SoftKey must return Edited"),
    }
}

#[test]
fn caps_keyboard_previews_capital_first() {
    let mut ed = editor(KeyboardType::TextStartCaps, "");
    ed.process_input(UserInput::Number(2), 0);
    assert_eq!(ed.layout().preview, Some('A'));
    ed.process_input(UserInput::Number(2), 1);
    assert_eq!(ed.layout().preview, Some('B'));
}

#[test]
fn star_and_hash_and_zero_sequences() {
    let mut ed = editor(KeyboardType::TextStartLower, "");
    ed.process_input(UserInput::Star, 0);
    assert_eq!(ed.multi_press_sequence, "+-*/");
    ed.process_input(UserInput::Hash, 1);
    assert_eq!(ed.text, "+");
    assert_eq!(ed.multi_press_sequence, "#");
    ed.process_input(UserInput::Number(0), 2);
    assert_eq!(ed.text, "+#");
    assert_eq!(ed.multi_press_sequence, " ");
}

#[test]
fn up_down_ignored_in_alpha_mode() {
    let mut ed = editor(KeyboardType::TextStartLower, "");
    ed.process_input(UserInput::Number(2), 0);
    assert!(ed.process_input(UserInput::Up, 5).is_none());
    assert!(ed.process_input(UserInput::Down, 6).is_none());
    assert_eq!(ed.multi_press_sequence, "abcABC");
    assert_eq!(ed.multi_press_count, 0);
    // The presses still restarted the multi-tap window.
    assert_eq!(ed.last_input_ms, 6);
}

#[test]
fn alpha_call_cancels() {
    let mut ed = editor(KeyboardType::TextStartLower, "xy");
    assert!(matches!(
        ed.process_input(UserInput::Call, 0),
        Some(TextInputResult::Canceled)
    ));
    assert_eq!(ed.text, "xy");
}

#[test]
fn numeric_keyboard_appends_digits_directly() {
    let mut ed = editor(KeyboardType::Numbers, "");
    for d in [4u8, 2u8, 0u8] {
        assert!(ed.process_input(UserInput::Number(d), 0).is_none());
    }
    assert_eq!(ed.text, "420");
    match ed.process_input(UserInput::SoftKey, 1) {
        Some(TextInputResult::Edited(s)) => assert_eq!(s, "420"),
        _ => panic!("SoftKey must commit in numeric mode"),
    }
}

#[test]
fn numeric_keyboard_ignores_non_digits() {
    let mut ed = editor(KeyboardType::Numbers, "1");
    for input in [UserInput::Star, UserInput::Hash, UserInput::Up, UserInput::Down, UserInput::Power]
    {
        assert!(ed.process_input(input, 0).is_none());
    }
    assert_eq!(ed.text, "1");
    assert!(matches!(
        ed.process_input(UserInput::Call, 0),
        Some(TextInputResult::Canceled)
    ));
}

#[test]
fn layout_shows_underscore_slot_without_preview() {
    let ed = editor(KeyboardType::TextStartLower, "hi");
    let layout = ed.layout();
    assert_eq!(layout.prompt, "Enter:");
    assert_eq!(layout.committed, "hi");
    assert_eq!(layout.preview, None);
}
