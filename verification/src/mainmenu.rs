//! The main menu pane: the top-level menu under the lock screen, owning
//! at most one open child view (contacts or settings).

use vstd::prelude::*;
use vstd::string::StringExecFns;

use crate::contacts::{
    contacts_initial, contacts_pop, contacts_render, contacts_steps, contacts_tick_steps,
    ContactsPane,
};
use crate::gui::{GuiAction, GuiElement, RenderModel, ScreenMetrics};
use crate::input::UserInput;
use crate::menu::{
    clamped_offset, cursor_after, menu_layout_matches, menu_result, Menu, MenuElement,
    MenuElementType, MenuInputEventResult,
};
use crate::settings::{settings_initial, settings_render, settings_steps, SettingsPane};

verus! {

/// The entries of the main menu.
#[derive(Clone, Copy, Debug, PartialEq, Eq, Structural)]
pub enum MainMenuOptions {
    Contacts,
    Settings,
}

impl MenuElement for MainMenuOptions {
    open spec fn spec_label(&self) -> Seq<char> {
        match self {
            MainMenuOptions::Contacts => "Contacts"@,
            MainMenuOptions::Settings => "Settings"@,
        }
    }

    open spec fn spec_item_type(&self) -> MenuElementType {
        MenuElementType::Button
    }

    fn display_label(&self) -> (r: String) {
        match self {
            MainMenuOptions::Contacts => String::from_str("Contacts"),
            MainMenuOptions::Settings => String::from_str("Settings"),
        }
    }

    fn menu_item_type(&self) -> (r: MenuElementType) {
        MenuElementType::Button
    }

    fn duplicate(&self) -> (r: Self) {
        *self
    }
}

/// The view currently open under the main menu, if any. At most one
/// child is active at a time; this closed union is the navigation
/// chain's link.
pub enum ChildPane {
    Contacts(ContactsPane),
    Settings(SettingsPane),
    NoChild,
}

/// The top-level menu and whichever view is open under it.
pub struct MainMenuPane {
    pub menu: Menu<MainMenuOptions>,
    pub child_pane: ChildPane,
}

/// The main menu as freshly built: both entries, cursor on the first,
/// nothing open below.
pub open spec fn main_initial(p: MainMenuPane) -> bool {
    &&& p.menu.options@ == seq![MainMenuOptions::Contacts, MainMenuOptions::Settings]
    &&& p.menu.cursor == 0
    &&& p.menu.y_offset_pixels == 0
    &&& p.child_pane is NoChild
}

/// How one input steps the main menu. With a child open, the input is
/// forwarded to it unmodified and its result returned unmodified. With
/// none, the menu handles it, and a selection opens the matching child
/// view freshly constructed.
pub open spec fn main_steps(
    pre: MainMenuPane,
    post: MainMenuPane,
    input: UserInput,
    now_ms: u64,
    r: GuiAction,
) -> bool {
    match pre.child_pane {
        ChildPane::Contacts(c) => {
            &&& post.menu == pre.menu
            &&& post.child_pane matches ChildPane::Contacts(c2) && contacts_steps(
                c,
                c2,
                input,
                now_ms,
                r,
            )
        },
        ChildPane::Settings(s) => {
            &&& post.menu == pre.menu
            &&& post.child_pane matches ChildPane::Settings(s2) && settings_steps(s, s2, input, r)
        },
        ChildPane::NoChild => {
            &&& post.menu.options == pre.menu.options
            &&& post.menu.y_offset_pixels == pre.menu.y_offset_pixels
            &&& post.menu.cursor as nat == cursor_after(
                pre.menu.cursor as nat,
                pre.menu.options.len() as nat,
                input,
            )
            &&& match menu_result(pre.menu.options@, pre.menu.cursor as nat, input) {
                MenuInputEventResult::MenuItemSelected(item) => {
                    &&& match item {
                        MainMenuOptions::Contacts => post.child_pane matches ChildPane::Contacts(c)
                            && contacts_initial(c),
                        MainMenuOptions::Settings => post.child_pane matches ChildPane::Settings(s)
                            && settings_initial(s),
                    }
                    &&& r == GuiAction::ScreenUpdated
                },
                MenuInputEventResult::WrappedGuiAction(a) => {
                    &&& post.child_pane is NoChild
                    &&& r == a
                },
            }
        },
    }
}

/// How one time slice steps the main menu: an open child gets the tick;
/// otherwise nothing happens.
pub open spec fn main_tick_steps(
    pre: MainMenuPane,
    post: MainMenuPane,
    now_ms: u64,
    r: GuiAction,
) -> bool {
    match pre.child_pane {
        ChildPane::Contacts(c) => {
            &&& post.menu == pre.menu
            &&& post.child_pane matches ChildPane::Contacts(c2) && contacts_tick_steps(
                c,
                c2,
                now_ms,
                r,
            )
        },
        ChildPane::Settings(s) => {
            &&& post == pre
            &&& r == GuiAction::Nothing
        },
        ChildPane::NoChild => post == pre && r == GuiAction::Nothing,
    }
}

/// How one pop steps the main menu: ask the open child first; if it
/// popped nothing deeper itself, close it here; report whether anything
/// was popped at all.
pub open spec fn main_pop(pre: MainMenuPane, post: MainMenuPane, r: bool) -> bool {
    match pre.child_pane {
        ChildPane::Contacts(c) => {
            &&& post.menu == pre.menu
            &&& r == true
            &&& if c.depth() > 0 {
                post.child_pane matches ChildPane::Contacts(c2) && contacts_pop(c, c2, true)
            } else {
                post.child_pane is NoChild
            }
        },
        ChildPane::Settings(_) => {
            &&& post.menu == pre.menu
            &&& r == true
            &&& post.child_pane is NoChild
        },
        ChildPane::NoChild => post == pre && r == false,
    }
}

/// Law: one pop closes exactly one view. A pop reports success exactly
/// when some view is open below, and then the number of open views
/// drops by one; on a chain of depth D it therefore takes exactly D
/// pops to close every view, and the next pop reports false.
pub proof fn lemma_pop_closes_one_view(pre: MainMenuPane, post: MainMenuPane, r: bool)
    requires
        main_pop(pre, post, r),
    ensures
        r == (pre.depth() > 0),
        post.depth() == (if pre.depth() > 0 {
            (pre.depth() - 1) as nat
        } else {
            0nat
        }),
{
}

/// How one render pass steps the main menu: an open child renders (the
/// menu itself untouched); with none, the main menu lays itself out.
pub open spec fn main_render(
    pre: MainMenuPane,
    post: MainMenuPane,
    metrics: ScreenMetrics,
    r: RenderModel,
) -> bool {
    match pre.child_pane {
        ChildPane::Contacts(c) => {
            &&& post.menu == pre.menu
            &&& post.child_pane matches ChildPane::Contacts(c2) && contacts_render(
                c,
                c2,
                metrics,
                r,
            )
        },
        ChildPane::Settings(s) => {
            &&& post.menu == pre.menu
            &&& post.child_pane matches ChildPane::Settings(s2) && settings_render(
                s,
                s2,
                metrics,
                r,
            )
        },
        ChildPane::NoChild => {
            &&& post.child_pane is NoChild
            &&& post.menu.options == pre.menu.options
            &&& post.menu.cursor == pre.menu.cursor
            &&& post.menu.y_offset_pixels as int == clamped_offset(
                pre.menu.y_offset_pixels as int,
                pre.menu.cursor as int * metrics.char_height as int,
                metrics.height as int - 2 * metrics.char_width as int - metrics.char_height as int,
            )
            &&& r matches RenderModel::MenuView(ml) && menu_layout_matches(post.menu, ml, metrics)
        },
    }
}

impl MainMenuPane {
    /// The pane's invariant: its menu is well formed and never empty,
    /// and the open child view, if any, is well formed.
    pub open spec fn wf(&self) -> bool {
        &&& self.menu.wf()
        &&& 1 <= self.menu.options.len() <= 10000
        &&& match self.child_pane {
            ChildPane::Contacts(c) => c.wf(),
            ChildPane::Settings(s) => s.wf(),
            ChildPane::NoChild => true,
        }
    }

    /// Open views nested under this pane.
    pub open spec fn depth(&self) -> nat {
        match self.child_pane {
            ChildPane::Contacts(c) => 1 + c.depth(),
            ChildPane::Settings(s) => 1 + s.depth(),
            ChildPane::NoChild => 0,
        }
    }

    /// Whether the active descendant defers the inactivity auto-lock.
    pub open spec fn prevents_lock(&self) -> bool {
        match self.child_pane {
            ChildPane::Contacts(c) => c.prevents_lock(),
            ChildPane::Settings(s) => s.prevents_lock(),
            ChildPane::NoChild => false,
        }
    }

    pub fn new() -> (r: MainMenuPane)
        ensures
            r.wf(),
            main_initial(r),
    {
        let pane = MainMenuPane {
            menu: Menu::new(vec![MainMenuOptions::Contacts, MainMenuOptions::Settings]),
            child_pane: ChildPane::NoChild,
        };
        proof {
            assert(pane.menu.options@ =~= seq![
                MainMenuOptions::Contacts,
                MainMenuOptions::Settings,
            ]);
        }
        pane
    }

    pub fn process_input(&mut self, input: UserInput, now_ms: u64) -> (r: GuiAction)
        requires
            old(self).wf(),
            input.valid(),
        ensures
            final(self).wf(),
            main_steps(*old(self), *final(self), input, now_ms, r),
    {
        match &mut self.child_pane {
            ChildPane::Contacts(pane) => pane.process_input(input, now_ms),
            ChildPane::Settings(pane) => pane.process_input(input, now_ms),
            ChildPane::NoChild => match self.menu.process_input(input) {
                MenuInputEventResult::MenuItemSelected(item) => {
                    match item {
                        MainMenuOptions::Contacts => {
                            self.child_pane = ChildPane::Contacts(ContactsPane::new());
                        },
                        MainMenuOptions::Settings => {
                            self.child_pane = ChildPane::Settings(SettingsPane::new());
                        },
                    }
                    GuiAction::ScreenUpdated
                },
                MenuInputEventResult::WrappedGuiAction(action) => action,
            },
        }
    }

    pub fn is_preventing_lock(&self) -> (r: bool)
        ensures
            r == self.prevents_lock(),
    {
        match &self.child_pane {
            ChildPane::Contacts(c) => c.is_preventing_lock(),
            ChildPane::Settings(s) => s.is_preventing_lock(),
            ChildPane::NoChild => false,
        }
    }

    pub fn tick(&mut self, now_ms: u64) -> (r: GuiAction)
        requires
            old(self).wf(),
        ensures
            final(self).wf(),
            main_tick_steps(*old(self), *final(self), now_ms, r),
    {
        match &mut self.child_pane {
            ChildPane::Contacts(c) => c.tick(now_ms),
            ChildPane::Settings(s) => s.tick(now_ms),
            ChildPane::NoChild => GuiAction::Nothing,
        }
    }

    /// The pop protocol: ask the open child first; if it popped nothing
    /// deeper itself, close it here.
    pub fn pop_deepest(&mut self) -> (r: bool)
        requires
            old(self).wf(),
        ensures
            final(self).wf(),
            main_pop(*old(self), *final(self), r),
            r == (old(self).depth() > 0),
            final(self).depth() == (if old(self).depth() > 0 {
                (old(self).depth() - 1) as nat
            } else {
                0nat
            }),
    {
        let child_did_pop = match &mut self.child_pane {
            ChildPane::Contacts(p) => p.pop_deepest(),
            ChildPane::Settings(p) => p.pop_deepest(),
            ChildPane::NoChild => {
                return false;
            },
        };
        if !child_did_pop {
            self.child_pane = ChildPane::NoChild;
        }
        true
    }

    /// The render pass: the open child view if there is one, else the
    /// main menu itself.
    pub fn render_model(&mut self, metrics: &ScreenMetrics) -> (r: RenderModel)
        requires
            old(self).wf(),
            metrics.wf(),
        ensures
            final(self).wf(),
            main_render(*old(self), *final(self), *metrics, r),
    {
        match &mut self.child_pane {
            ChildPane::Contacts(pane) => pane.render_model(metrics),
            ChildPane::Settings(pane) => pane.render_model(metrics),
            ChildPane::NoChild => RenderModel::MenuView(self.menu.layout(metrics)),
        }
    }
}

impl GuiElement for MainMenuPane {
    open spec fn render_ready(&self, metrics: ScreenMetrics) -> bool {
        self.wf() && metrics.wf()
    }

    fn render(&mut self, metrics: &ScreenMetrics) -> (r: RenderModel) {
        self.render_model(metrics)
    }
}

} // verus!
