//! The settings pane: a flat menu of device areas. No settings subview
//! is wired up yet, so selecting an entry does nothing.

use vstd::prelude::*;
use vstd::string::StringExecFns;

use crate::gui::{GuiAction, GuiElement, RenderModel, ScreenMetrics};
use crate::input::UserInput;
use crate::menu::{
    clamped_offset, cursor_after, menu_layout_matches, menu_result, Menu, MenuElement,
    MenuElementType, MenuInputEventResult,
};

verus! {

/// The entries of the settings menu.
#[derive(Clone, Copy, Debug, PartialEq, Eq, Structural)]
pub enum SettingsOptions {
    Wifi,
    Cellular,
    Voip,
    Sound,
    Security,
    Accessibility,
    About,
}

impl MenuElement for SettingsOptions {
    open spec fn spec_label(&self) -> Seq<char> {
        match self {
            SettingsOptions::Wifi => "WiFi"@,
            SettingsOptions::Cellular => "Cellular"@,
            SettingsOptions::Voip => "VOIP"@,
            SettingsOptions::Sound => "Sound"@,
            SettingsOptions::Security => "Security"@,
            SettingsOptions::Accessibility => "Accessibility"@,
            SettingsOptions::About => "About Device"@,
        }
    }

    open spec fn spec_item_type(&self) -> MenuElementType {
        MenuElementType::Button
    }

    fn display_label(&self) -> (r: String) {
        match self {
            SettingsOptions::Wifi => String::from_str("WiFi"),
            SettingsOptions::Cellular => String::from_str("Cellular"),
            SettingsOptions::Voip => String::from_str("VOIP"),
            SettingsOptions::Sound => String::from_str("Sound"),
            SettingsOptions::Security => String::from_str("Security"),
            SettingsOptions::Accessibility => String::from_str("Accessibility"),
            SettingsOptions::About => String::from_str("About Device"),
        }
    }

    fn menu_item_type(&self) -> (r: MenuElementType) {
        MenuElementType::Button
    }

    fn duplicate(&self) -> (r: Self) {
        *self
    }
}

/// A modal view listing the device's setting areas.
pub struct SettingsPane {
    pub menu: Menu<SettingsOptions>,
}

/// The settings menu as freshly opened.
pub open spec fn settings_initial(p: SettingsPane) -> bool {
    &&& p.menu.options@ == seq![
        SettingsOptions::Wifi,
        SettingsOptions::Cellular,
        SettingsOptions::Voip,
        SettingsOptions::Sound,
        SettingsOptions::Security,
        SettingsOptions::Accessibility,
        SettingsOptions::About,
    ]
    &&& p.menu.cursor == 0
    &&& p.menu.y_offset_pixels == 0
}

/// How one render pass steps the settings pane: its menu lays itself
/// out against the clamped scroll offset.
pub open spec fn settings_render(
    pre: SettingsPane,
    post: SettingsPane,
    metrics: ScreenMetrics,
    r: RenderModel,
) -> bool {
    &&& post.menu.options == pre.menu.options
    &&& post.menu.cursor == pre.menu.cursor
    &&& post.menu.y_offset_pixels as int == clamped_offset(
        pre.menu.y_offset_pixels as int,
        pre.menu.cursor as int * metrics.char_height as int,
        metrics.height as int - 2 * metrics.char_width as int - metrics.char_height as int,
    )
    &&& r matches RenderModel::MenuView(ml) && menu_layout_matches(post.menu, ml, metrics)
}

/// How one input steps the settings pane: the menu moves as every menu
/// does, a selection is ignored (nothing to open), and a wrapped action
/// passes through.
pub open spec fn settings_steps(
    pre: SettingsPane,
    post: SettingsPane,
    input: UserInput,
    r: GuiAction,
) -> bool {
    &&& post.menu.options == pre.menu.options
    &&& post.menu.y_offset_pixels == pre.menu.y_offset_pixels
    &&& post.menu.cursor as nat == cursor_after(
        pre.menu.cursor as nat,
        pre.menu.options.len() as nat,
        input,
    )
    &&& r == (match menu_result(pre.menu.options@, pre.menu.cursor as nat, input) {
        MenuInputEventResult::MenuItemSelected(_) => GuiAction::Nothing,
        MenuInputEventResult::WrappedGuiAction(a) => a,
    })
}

impl SettingsPane {
    /// The pane's invariant: its menu is well formed and never empty.
    pub open spec fn wf(&self) -> bool {
        &&& self.menu.wf()
        &&& 1 <= self.menu.options.len() <= 10000
    }

    /// Open views nested under this pane: the settings pane never opens
    /// a child.
    pub open spec fn depth(&self) -> nat {
        0
    }

    /// Whether this pane defers the inactivity auto-lock.
    pub open spec fn prevents_lock(&self) -> bool {
        false
    }

    pub fn new() -> (r: SettingsPane)
        ensures
            r.wf(),
            settings_initial(r),
    {
        let pane = SettingsPane {
            menu: Menu::new(
                vec![
                    SettingsOptions::Wifi,
                    SettingsOptions::Cellular,
                    SettingsOptions::Voip,
                    SettingsOptions::Sound,
                    SettingsOptions::Security,
                    SettingsOptions::Accessibility,
                    SettingsOptions::About,
                ],
            ),
        };
        proof {
            assert(pane.menu.options@ =~= seq![
                SettingsOptions::Wifi,
                SettingsOptions::Cellular,
                SettingsOptions::Voip,
                SettingsOptions::Sound,
                SettingsOptions::Security,
                SettingsOptions::Accessibility,
                SettingsOptions::About,
            ]);
        }
        pane
    }

    pub fn process_input(&mut self, input: UserInput, now_ms: u64) -> (r: GuiAction)
        requires
            old(self).wf(),
            input.valid(),
        ensures
            final(self).wf(),
            settings_steps(*old(self), *final(self), input, r),
    {
        match self.menu.process_input(input) {
            MenuInputEventResult::MenuItemSelected(_) => GuiAction::Nothing,
            MenuInputEventResult::WrappedGuiAction(action) => action,
        }
    }

    pub fn is_preventing_lock(&self) -> (r: bool)
        ensures
            r == self.prevents_lock(),
    {
        false
    }

    pub fn tick(&mut self, now_ms: u64) -> (r: GuiAction)
        requires
            old(self).wf(),
        ensures
            *final(self) == *old(self),
            r == GuiAction::Nothing,
    {
        GuiAction::Nothing
    }

    /// Nothing is ever open below this pane, so there is nothing to pop.
    pub fn pop_deepest(&mut self) -> (r: bool)
        requires
            old(self).wf(),
        ensures
            *final(self) == *old(self),
            r == (old(self).depth() > 0),
            final(self).depth() == 0,
    {
        false
    }

    /// The render pass: this pane shows its menu.
    pub fn render_model(&mut self, metrics: &ScreenMetrics) -> (r: RenderModel)
        requires
            old(self).wf(),
            metrics.wf(),
        ensures
            final(self).wf(),
            settings_render(*old(self), *final(self), *metrics, r),
    {
        RenderModel::MenuView(self.menu.layout(metrics))
    }
}

impl GuiElement for SettingsPane {
    open spec fn render_ready(&self, metrics: ScreenMetrics) -> bool {
        self.wf() && metrics.wf()
    }

    fn render(&mut self, metrics: &ScreenMetrics) -> (r: RenderModel) {
        self.render_model(metrics)
    }
}

} // verus!
