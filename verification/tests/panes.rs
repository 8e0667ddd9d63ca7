use bricc::{
    Bricc, ChildPane, Contact, ContactsPane, EditContactPane, GuiAction, RenderModel, RootPane,
    ScreenMetrics, UserInput,
};

fn metrics() -> ScreenMetrics {
    ScreenMetrics { width: 84, height: 48, char_width: 5, char_height: 9 }
}

/// Unlocks the root and opens Contacts, then its editor: a chain of
/// depth two below the main menu.
fn open_chain() -> RootPane {
    let mut root = RootPane::new(0);
    root.process_input(UserInput::Number(5), 1); // unlock, consumed
    assert!(root.is_unlocked);
    root.process_input(UserInput::Number(1), 2); // open Contacts
    root.process_input(UserInput::Number(5), 3); // "Add New" opens the editor
    root
}

#[test]
fn pop_protocol_takes_exactly_depth_pops() {
    let mut root = open_chain();
    // Depth 2: the contacts pane and the editor under it.
    assert!(root.pop_deepest()); // closes the editor
    assert!(root.pop_deepest()); // closes the contacts pane
    assert!(!root.pop_deepest()); // nothing left to pop
    assert!(matches!(root.child.child_pane, ChildPane::NoChild));
}

#[test]
fn locked_root_consumes_input_and_unlocks() {
    let mut root = RootPane::new(0);
    assert!(!root.is_unlocked);
    let r = root.process_input(UserInput::Number(5), 1);
    assert_eq!(r, GuiAction::ScreenUpdated);
    assert!(root.is_unlocked);
    // The unlocking input was not forwarded: the menu cursor is unmoved.
    assert_eq!(root.child.menu.cursor, 0);
}

#[test]
fn end_to_end_unlock_then_open_settings() {
    // Fixture per the navigation walkthrough: two options, cursor 0.
    let mut root = RootPane::new(0);
    root.process_input(UserInput::Number(5), 1);
    assert_eq!(root.child.menu.cursor, 0);
    let r = root.process_input(UserInput::Down, 2);
    assert_eq!(r, GuiAction::ScreenUpdated);
    assert_eq!(root.child.menu.cursor, 1);
    let r = root.process_input(UserInput::SoftKey, 3);
    assert_eq!(r, GuiAction::ScreenUpdated);
    assert!(matches!(root.child.child_pane, ChildPane::Settings(_)));
}

#[test]
fn auto_lock_after_inactivity_timeout() {
    let mut root = RootPane::new(0);
    root.process_input(UserInput::Number(5), 1000);
    assert!(root.is_unlocked);
    // Within the timeout nothing happens.
    assert_eq!(root.tick(31000), GuiAction::Nothing);
    assert!(root.is_unlocked);
    // Past it, the root re-locks and asks for a repaint.
    assert_eq!(root.tick(31001), GuiAction::ScreenUpdated);
    assert!(!root.is_unlocked);
    assert_eq!(root.tick(31002), GuiAction::Nothing);
}

#[test]
fn mid_edit_defers_auto_lock() {
    let mut root = open_chain();
    // Start editing the name: the editor below now prevents the lock.
    root.process_input(UserInput::Number(1), 4);
    assert!(root.is_preventing_lock());
    assert_ne!(root.tick(100000), GuiAction::ScreenUpdated);
    assert!(root.is_unlocked);
}

#[test]
fn call_bubbles_pop_from_menu_without_child() {
    let mut root = open_chain();
    root.pop_deepest();
    root.pop_deepest();
    // Call on the main menu with nothing open asks the caller to pop.
    let r = root.process_input(UserInput::Call, 10);
    assert_eq!(r, GuiAction::PopPane);
}

#[test]
fn contacts_selecting_contact_does_nothing() {
    let mut pane = ContactsPane::new();
    let r = pane.process_input(UserInput::Number(2), 0);
    assert_eq!(r, GuiAction::Nothing);
    assert!(pane.child.is_none());
}

#[test]
fn contacts_add_new_opens_blank_editor() {
    let mut pane = ContactsPane::new();
    assert_eq!(pane.menu.options.len(), 5);
    let r = pane.process_input(UserInput::Number(5), 0);
    assert_eq!(r, GuiAction::ScreenUpdated);
    let child = pane.child.as_ref().expect("Add New must open the editor");
    assert_eq!(child.name, "");
    assert_eq!(child.phone_number, "");
}

#[test]
fn edit_contact_commits_name_and_asks_pop() {
    let mut pane = EditContactPane::new(Contact {
        name: String::from("Jo"),
        phone_number: String::from(""),
    });
    // Open the name editor, seeded with the current name.
    let r = pane.process_input(UserInput::Number(1), 0);
    assert_eq!(r, GuiAction::ScreenUpdated);
    // Two taps on key 2 preview 'b'; the timeout commits it.
    pane.process_input(UserInput::Number(2), 10);
    pane.process_input(UserInput::Number(2), 20);
    assert_eq!(pane.tick(2000), GuiAction::ScreenUpdated);
    // SoftKey stores the edited value and asks to be popped.
    let r = pane.process_input(UserInput::SoftKey, 2100);
    assert_eq!(r, GuiAction::PopPane);
    assert_eq!(pane.name, "Job");
}

#[test]
fn edit_contact_cancel_keeps_old_value() {
    let mut pane = EditContactPane::new(Contact {
        name: String::from("Jo"),
        phone_number: String::from("1"),
    });
    pane.process_input(UserInput::Number(2), 0); // open the phone editor
    pane.process_input(UserInput::Number(9), 1);
    let r = pane.process_input(UserInput::Call, 2);
    assert_eq!(r, GuiAction::PopPane);
    assert_eq!(pane.phone_number, "1");
}

#[test]
fn locked_root_renders_blank() {
    let mut root = RootPane::new(0);
    let model = bricc::GuiElement::render(&mut root, &metrics());
    assert!(matches!(model, RenderModel::Blank));
}

#[test]
fn bricc_core_marks_and_clears_repaints() {
    let mut core = Bricc::new(0);
    assert!(core.screen_needs_update);
    assert!(matches!(
        core.render_pass(&metrics()),
        Some(RenderModel::Blank)
    ));
    assert!(!core.screen_needs_update);
    // No input: another pass draws nothing.
    assert!(core.render_pass(&metrics()).is_none());
    // An input unlocks and marks the screen dirty again.
    core.on_input(UserInput::Number(5), 1);
    assert!(core.screen_needs_update);
    assert!(matches!(
        core.render_pass(&metrics()),
        Some(RenderModel::MenuView(_))
    ));
}

#[test]
fn bricc_core_pops_on_pop_pane_signal() {
    let mut core = Bricc::new(0);
    core.on_input(UserInput::Number(5), 1); // unlock
    core.on_input(UserInput::Number(1), 2); // open Contacts
    core.render_pass(&metrics());
    // Call from the contacts menu asks to pop; the core pops the pane.
    core.on_input(UserInput::Call, 3);
    assert!(matches!(core.root_pane.child.child_pane, ChildPane::NoChild));
    assert!(core.screen_needs_update);
}

#[test]
fn bricc_tick_commits_multi_tap_timeout() {
    let mut core = Bricc::new(0);
    core.on_input(UserInput::Number(5), 1); // unlock
    core.on_input(UserInput::Number(1), 2); // Contacts
    core.on_input(UserInput::Number(5), 3); // Add New
    core.on_input(UserInput::Number(1), 4); // edit the name
    core.on_input(UserInput::Number(2), 5); // preview 'a'
    core.render_pass(&metrics());
    assert!(!core.screen_needs_update);
    core.on_tick(2000); // multi-tap timeout commits 'a'
    assert!(core.screen_needs_update);
}

#[test]
fn contacts_menu_lists_contacts_then_add_new() {
    let mut pane = ContactsPane::new();
    let model = pane.render_model(&metrics());
    match model {
        RenderModel::MenuView(layout) => {
            let labels: Vec<&str> = layout.rows.iter().map(|r| r.label.as_str()).collect();
            assert_eq!(
                labels,
                vec![
                    "1: John Smith",
                    "2: Jane Doe",
                    "3: Ellen Poe",
                    "4: Whoever Else",
                    "5: Add New"
                ]
            );
        }
        _ => panic!("a contacts pane with no editor open must render its menu"),
    }
}
