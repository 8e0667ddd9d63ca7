//! The contact editor pane: a two-entry menu (name, phone number) that
//! opens a text editor for the chosen attribute and stores the edited
//! value back on commit.

use vstd::prelude::*;
use vstd::string::StringExecFns;

use crate::contacts::Contact;
use crate::gui::{GuiAction, GuiElement, RenderModel, ScreenMetrics};
use crate::input::UserInput;
use crate::menu::{
    clamped_offset, cursor_after, menu_layout_matches, menu_result, Menu, MenuElement,
    MenuElementType, MenuInputEventResult,
};
use crate::text_input::{
    text_layout_matches, text_steps, text_tick_steps, KeyboardType, TextInputHelper,
    TextInputResult,
};

verus! {

/// The multi-tap window used by every text editor this pane opens.
pub const MULTI_PRESS_TIMEOUT_MS: u64 = 1000;

/// The editable attributes of a contact.
#[derive(Clone, Copy, Debug, PartialEq, Eq, Structural)]
pub enum ContactAttribute {
    Name,
    PhoneNumber,
}

impl MenuElement for ContactAttribute {
    open spec fn spec_label(&self) -> Seq<char> {
        match self {
            ContactAttribute::Name => "Name"@,
            ContactAttribute::PhoneNumber => "Phone#"@,
        }
    }

    open spec fn spec_item_type(&self) -> MenuElementType {
        match self {
            ContactAttribute::Name => MenuElementType::TextEntry,
            ContactAttribute::PhoneNumber => MenuElementType::NumberEntry,
        }
    }

    fn display_label(&self) -> (r: String) {
        match self {
            ContactAttribute::Name => String::from_str("Name"),
            ContactAttribute::PhoneNumber => String::from_str("Phone#"),
        }
    }

    fn menu_item_type(&self) -> (r: MenuElementType) {
        match self {
            ContactAttribute::Name => MenuElementType::TextEntry,
            ContactAttribute::PhoneNumber => MenuElementType::NumberEntry,
        }
    }

    fn duplicate(&self) -> (r: Self) {
        *self
    }
}

/// A modal view editing one contact: the values edited so far, the
/// attribute menu, and the text editor for the attribute being edited,
/// if one is open.
pub struct EditContactPane {
    pub name: String,
    pub phone_number: String,
    pub menu: Menu<ContactAttribute>,
    pub text_edit: Option<(ContactAttribute, TextInputHelper)>,
}

/// The editor pane as freshly opened over a contact with the given
/// field values.
pub open spec fn edit_initial(p: EditContactPane, name: Seq<char>, phone: Seq<char>) -> bool {
    &&& p.name@ == name
    &&& p.phone_number@ == phone
    &&& p.menu.options@ == seq![ContactAttribute::Name, ContactAttribute::PhoneNumber]
    &&& p.menu.cursor == 0
    &&& p.menu.y_offset_pixels == 0
    &&& p.text_edit is None
}

/// A text editor as freshly opened for one attribute.
pub open spec fn editor_initial(
    h: TextInputHelper,
    prompt: Seq<char>,
    initial: String,
    keyboard: KeyboardType,
    now_ms: u64,
) -> bool {
    &&& h.prompt@ == prompt
    &&& h.text == initial
    &&& h.keyboard == keyboard
    &&& h.last_input_ms == now_ms
    &&& h.multi_press_timeout_ms == MULTI_PRESS_TIMEOUT_MS
    &&& h.multi_press_count == 0
    &&& h.multi_press_sequence@ == Seq::<char>::empty()
}

/// How one input steps the editor pane. With a text editor open, the
/// input goes to it: SoftKey commits its text into the chosen attribute
/// and asks to be popped (the editor pane itself closes), Call cancels
/// and asks the same, and any other key steps the editor and repaints.
/// With no editor open, the menu handles the input, and a selection
/// opens the editor for that attribute seeded with its current value.
pub open spec fn edit_steps(
    pre: EditContactPane,
    post: EditContactPane,
    input: UserInput,
    now_ms: u64,
    r: GuiAction,
) -> bool {
    match pre.text_edit {
        Some((attrib, helper)) => {
            &&& post.menu == pre.menu
            &&& match input {
                UserInput::SoftKey => {
                    &&& post.text_edit == pre.text_edit
                    &&& match attrib {
                        ContactAttribute::Name => post.name == helper.text && post.phone_number
                            == pre.phone_number,
                        ContactAttribute::PhoneNumber => post.phone_number == helper.text
                            && post.name == pre.name,
                    }
                    &&& r == GuiAction::PopPane
                },
                UserInput::Call => {
                    &&& post == pre
                    &&& r == GuiAction::PopPane
                },
                _ => {
                    &&& post.name == pre.name
                    &&& post.phone_number == pre.phone_number
                    &&& post.text_edit matches Some((a2, h2)) && a2 == attrib && text_steps(
                        helper,
                        h2,
                        input,
                        now_ms,
                        None,
                    )
                    &&& r == GuiAction::ScreenUpdated
                },
            }
        },
        None => {
            &&& post.name == pre.name
            &&& post.phone_number == pre.phone_number
            &&& post.menu.options == pre.menu.options
            &&& post.menu.y_offset_pixels == pre.menu.y_offset_pixels
            &&& post.menu.cursor as nat == cursor_after(
                pre.menu.cursor as nat,
                pre.menu.options.len() as nat,
                input,
            )
            &&& match menu_result(pre.menu.options@, pre.menu.cursor as nat, input) {
                MenuInputEventResult::MenuItemSelected(item) => {
                    &&& post.text_edit matches Some((a2, h2)) && a2 == item && (match item {
                        ContactAttribute::Name => editor_initial(
                            h2,
                            "Enter name:"@,
                            pre.name,
                            KeyboardType::TextStartLower,
                            now_ms,
                        ),
                        ContactAttribute::PhoneNumber => editor_initial(
                            h2,
                            "Enter phone#:"@,
                            pre.phone_number,
                            KeyboardType::Numbers,
                            now_ms,
                        ),
                    })
                    &&& r == GuiAction::ScreenUpdated
                },
                MenuInputEventResult::WrappedGuiAction(a) => {
                    &&& post.text_edit is None
                    &&& r == a
                },
            }
        },
    }
}

/// How one render pass steps the editor pane: the open text editor
/// renders (the pane untouched); with none, the attribute menu lays
/// itself out.
pub open spec fn edit_render(
    pre: EditContactPane,
    post: EditContactPane,
    metrics: ScreenMetrics,
    r: RenderModel,
) -> bool {
    match pre.text_edit {
        Some((_, h)) => post == pre && (r matches RenderModel::TextView(t)
            && text_layout_matches(h, t)),
        None => {
            &&& post.name == pre.name
            &&& post.phone_number == pre.phone_number
            &&& post.text_edit is None
            &&& post.menu.options == pre.menu.options
            &&& post.menu.cursor == pre.menu.cursor
            &&& post.menu.y_offset_pixels as int == clamped_offset(
                pre.menu.y_offset_pixels as int,
                pre.menu.cursor as int * metrics.char_height as int,
                metrics.height as int - 2 * metrics.char_width as int - metrics.char_height as int,
            )
            &&& r matches RenderModel::MenuView(ml) && menu_layout_matches(post.menu, ml, metrics)
        },
    }
}

/// How one time slice steps the editor pane: an open text editor gets
/// the tick (committing a timed-out preview); otherwise nothing happens.
pub open spec fn edit_tick_steps(
    pre: EditContactPane,
    post: EditContactPane,
    now_ms: u64,
    r: GuiAction,
) -> bool {
    match pre.text_edit {
        Some((attrib, helper)) => {
            &&& post.name == pre.name
            &&& post.phone_number == pre.phone_number
            &&& post.menu == pre.menu
            &&& post.text_edit matches Some((a2, h2)) && a2 == attrib && text_tick_steps(
                helper,
                h2,
                now_ms,
                r,
            )
        },
        None => post == pre && r == GuiAction::Nothing,
    }
}

impl EditContactPane {
    /// The pane's invariant: the attribute menu is well formed and never
    /// empty, and an open editor is well formed.
    pub open spec fn wf(&self) -> bool {
        &&& self.menu.wf()
        &&& 1 <= self.menu.options.len() <= 10000
        &&& match self.text_edit {
            Some((_, h)) => h.wf(),
            None => true,
        }
    }

    /// Open views nested under this pane: the text editor is sub-state
    /// of this pane, not an open child view, so the depth is zero.
    pub open spec fn depth(&self) -> nat {
        0
    }

    /// An edit in progress defers the inactivity auto-lock.
    pub open spec fn prevents_lock(&self) -> bool {
        self.text_edit is Some
    }

    pub fn new(contact: Contact) -> (r: EditContactPane)
        ensures
            r.wf(),
            edit_initial(r, contact.name@, contact.phone_number@),
    {
        let pane = EditContactPane {
            name: contact.name,
            phone_number: contact.phone_number,
            menu: Menu::new(vec![ContactAttribute::Name, ContactAttribute::PhoneNumber]),
            text_edit: None,
        };
        proof {
            assert(pane.menu.options@ =~= seq![
                ContactAttribute::Name,
                ContactAttribute::PhoneNumber,
            ]);
        }
        pane
    }

    pub fn process_input(&mut self, input: UserInput, now_ms: u64) -> (r: GuiAction)
        requires
            old(self).wf(),
            input.valid(),
        ensures
            final(self).wf(),
            edit_steps(*old(self), *final(self), input, now_ms, r),
    {
        match &mut self.text_edit {
            Some((attrib, helper)) => match helper.process_input(input, now_ms) {
                Some(result) => match result {
                    TextInputResult::Edited(val) => {
                        match attrib {
                            ContactAttribute::Name => {
                                self.name = val;
                            },
                            ContactAttribute::PhoneNumber => {
                                self.phone_number = val;
                            },
                        }
                        GuiAction::PopPane
                    },
                    TextInputResult::Canceled => GuiAction::PopPane,
                },
                None => GuiAction::ScreenUpdated,
            },
            None => match self.menu.process_input(input) {
                MenuInputEventResult::MenuItemSelected(item) => {
                    let child = match item {
                        ContactAttribute::Name => TextInputHelper::new(
                            String::from_str("Enter name:"),
                            self.name.clone(),
                            KeyboardType::TextStartLower,
                            MULTI_PRESS_TIMEOUT_MS,
                            now_ms,
                        ),
                        ContactAttribute::PhoneNumber => TextInputHelper::new(
                            String::from_str("Enter phone#:"),
                            self.phone_number.clone(),
                            KeyboardType::Numbers,
                            MULTI_PRESS_TIMEOUT_MS,
                            now_ms,
                        ),
                    };
                    self.text_edit = Some((item, child));
                    GuiAction::ScreenUpdated
                },
                MenuInputEventResult::WrappedGuiAction(action) => action,
            },
        }
    }

    pub fn is_preventing_lock(&self) -> (r: bool)
        ensures
            r == self.prevents_lock(),
    {
        self.text_edit.is_some()
    }

    pub fn tick(&mut self, now_ms: u64) -> (r: GuiAction)
        requires
            old(self).wf(),
        ensures
            final(self).wf(),
            edit_tick_steps(*old(self), *final(self), now_ms, r),
    {
        match &mut self.text_edit {
            Some((_, helper)) => helper.tick(now_ms),
            None => GuiAction::Nothing,
        }
    }

    /// The text editor is not an open child view, so there is never
    /// anything to pop below this pane.
    pub fn pop_deepest(&mut self) -> (r: bool)
        requires
            old(self).wf(),
        ensures
            *final(self) == *old(self),
            r == (old(self).depth() > 0),
            final(self).depth() == 0,
    {
        false
    }

    /// The render pass: the open text editor if there is one, else the
    /// attribute menu.
    pub fn render_model(&mut self, metrics: &ScreenMetrics) -> (r: RenderModel)
        requires
            old(self).wf(),
            metrics.wf(),
        ensures
            final(self).wf(),
            edit_render(*old(self), *final(self), *metrics, r),
    {
        match &mut self.text_edit {
            Some((_, helper)) => RenderModel::TextView(helper.layout()),
            None => RenderModel::MenuView(self.menu.layout(metrics)),
        }
    }
}

impl GuiElement for EditContactPane {
    open spec fn render_ready(&self, metrics: ScreenMetrics) -> bool {
        self.wf() && metrics.wf()
    }

    fn render(&mut self, metrics: &ScreenMetrics) -> (r: RenderModel) {
        self.render_model(metrics)
    }
}

} // verus!
