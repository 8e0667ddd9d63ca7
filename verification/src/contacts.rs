//! The contacts pane: the contact list plus an "Add New" entry, and the
//! contact editor it opens as its child view.

use vstd::prelude::*;
use vstd::string::StringExecFns;

use crate::edit_contact::{edit_initial, edit_render, edit_steps, edit_tick_steps, EditContactPane};
use crate::gui::{GuiAction, GuiElement, RenderModel, ScreenMetrics};
use crate::input::UserInput;
use crate::menu::{
    clamped_offset, cursor_after, menu_layout_matches, menu_result, Menu, MenuElement,
    MenuElementType, MenuInputEventResult,
};

verus! {

/// One stored contact: a display name and a phone number.
pub struct Contact {
    pub name: String,
    pub phone_number: String,
}

/// One row of the contacts menu: a contact, or the entry that opens a
/// blank editor.
pub enum ContactsPaneItem {
    Contact(Contact),
    AddNewButton,
}

impl MenuElement for ContactsPaneItem {
    open spec fn spec_label(&self) -> Seq<char> {
        match self {
            ContactsPaneItem::Contact(contact) => contact.name@,
            ContactsPaneItem::AddNewButton => "Add New"@,
        }
    }

    open spec fn spec_item_type(&self) -> MenuElementType {
        match self {
            ContactsPaneItem::Contact(_) => MenuElementType::Callable,
            ContactsPaneItem::AddNewButton => MenuElementType::Button,
        }
    }

    fn display_label(&self) -> (r: String) {
        match self {
            ContactsPaneItem::Contact(contact) => contact.name.clone(),
            ContactsPaneItem::AddNewButton => String::from_str("Add New"),
        }
    }

    fn menu_item_type(&self) -> (r: MenuElementType) {
        match self {
            ContactsPaneItem::Contact(_) => MenuElementType::Callable,
            ContactsPaneItem::AddNewButton => MenuElementType::Button,
        }
    }

    fn duplicate(&self) -> (r: Self) {
        match self {
            ContactsPaneItem::Contact(contact) => ContactsPaneItem::Contact(
                Contact { name: contact.name.clone(), phone_number: contact.phone_number.clone() },
            ),
            ContactsPaneItem::AddNewButton => ContactsPaneItem::AddNewButton,
        }
    }
}

/// A modal view listing the contacts, with the contact editor as its
/// only possible child view.
pub struct ContactsPane {
    pub menu: Menu<ContactsPaneItem>,
    pub child: Option<EditContactPane>,
}

/// The contacts pane as freshly opened: the built-in contact list, the
/// "Add New" entry last, no editor open.
pub open spec fn contacts_initial(p: ContactsPane) -> bool {
    &&& p.menu.cursor == 0
    &&& p.menu.y_offset_pixels == 0
    &&& p.menu.options@.len() == 5
    &&& p.menu.options@[0] matches ContactsPaneItem::Contact(c) && c.name@ == "John Smith"@
        && c.phone_number@ == Seq::<char>::empty()
    &&& p.menu.options@[1] matches ContactsPaneItem::Contact(c) && c.name@ == "Jane Doe"@
        && c.phone_number@ == Seq::<char>::empty()
    &&& p.menu.options@[2] matches ContactsPaneItem::Contact(c) && c.name@ == "Ellen Poe"@
        && c.phone_number@ == Seq::<char>::empty()
    &&& p.menu.options@[3] matches ContactsPaneItem::Contact(c) && c.name@ == "Whoever Else"@
        && c.phone_number@ == Seq::<char>::empty()
    &&& p.menu.options@[4] is AddNewButton
    &&& p.child is None
}

/// How one input steps the contacts pane. With the editor open, the
/// input is forwarded to it unmodified and its result returned
/// unmodified. Otherwise the menu handles it: selecting a contact does
/// nothing yet (calling is not wired up), and selecting "Add New" opens
/// the editor over a blank contact.
pub open spec fn contacts_steps(
    pre: ContactsPane,
    post: ContactsPane,
    input: UserInput,
    now_ms: u64,
    r: GuiAction,
) -> bool {
    match pre.child {
        Some(e) => {
            &&& post.menu == pre.menu
            &&& post.child matches Some(e2) && edit_steps(e, e2, input, now_ms, r)
        },
        None => {
            &&& post.menu.options == pre.menu.options
            &&& post.menu.y_offset_pixels == pre.menu.y_offset_pixels
            &&& post.menu.cursor as nat == cursor_after(
                pre.menu.cursor as nat,
                pre.menu.options.len() as nat,
                input,
            )
            &&& match menu_result(pre.menu.options@, pre.menu.cursor as nat, input) {
                MenuInputEventResult::MenuItemSelected(item) => match item {
                    ContactsPaneItem::Contact(_) => post.child is None && r == GuiAction::Nothing,
                    ContactsPaneItem::AddNewButton => {
                        &&& post.child matches Some(e) && edit_initial(
                            e,
                            Seq::<char>::empty(),
                            Seq::<char>::empty(),
                        )
                        &&& r == GuiAction::ScreenUpdated
                    },
                },
                MenuInputEventResult::WrappedGuiAction(a) => post.child is None && r == a,
            }
        },
    }
}

/// How one time slice steps the contacts pane: an open editor gets the
/// tick; otherwise nothing happens.
pub open spec fn contacts_tick_steps(
    pre: ContactsPane,
    post: ContactsPane,
    now_ms: u64,
    r: GuiAction,
) -> bool {
    match pre.child {
        Some(e) => {
            &&& post.menu == pre.menu
            &&& post.child matches Some(e2) && edit_tick_steps(e, e2, now_ms, r)
        },
        None => post == pre && r == GuiAction::Nothing,
    }
}

/// How one render pass steps the contacts pane: the open editor
/// renders; with none, the contact menu lays itself out.
pub open spec fn contacts_render(
    pre: ContactsPane,
    post: ContactsPane,
    metrics: ScreenMetrics,
    r: RenderModel,
) -> bool {
    match pre.child {
        Some(e) => {
            &&& post.menu == pre.menu
            &&& post.child matches Some(e2) && edit_render(e, e2, metrics, r)
        },
        None => {
            &&& post.child is None
            &&& post.menu.options == pre.menu.options
            &&& post.menu.cursor == pre.menu.cursor
            &&& post.menu.y_offset_pixels as int == clamped_offset(
                pre.menu.y_offset_pixels as int,
                pre.menu.cursor as int * metrics.char_height as int,
                metrics.height as int - 2 * metrics.char_width as int - metrics.char_height as int,
            )
            &&& r matches RenderModel::MenuView(ml) && menu_layout_matches(post.menu, ml, metrics)
        },
    }
}

/// How one pop steps the contacts pane: with no child there is nothing
/// to pop; with the editor open (which itself never has anything deeper
/// to pop), the editor is closed.
pub open spec fn contacts_pop(pre: ContactsPane, post: ContactsPane, r: bool) -> bool {
    match pre.child {
        Some(_) => {
            &&& post.menu == pre.menu
            &&& post.child is None
            &&& r == true
        },
        None => post == pre && r == false,
    }
}

impl ContactsPane {
    /// The pane's invariant: its menu is well formed and never empty,
    /// and an open editor is well formed.
    pub open spec fn wf(&self) -> bool {
        &&& self.menu.wf()
        &&& 1 <= self.menu.options.len() <= 10000
        &&& match self.child {
            Some(e) => e.wf(),
            None => true,
        }
    }

    /// Open views nested under this pane: the editor if it is open.
    pub open spec fn depth(&self) -> nat {
        match self.child {
            Some(e) => 1 + e.depth(),
            None => 0,
        }
    }

    /// Whether this pane or its open editor defers the auto-lock.
    pub open spec fn prevents_lock(&self) -> bool {
        match self.child {
            Some(e) => e.prevents_lock(),
            None => false,
        }
    }

    pub fn new() -> (r: ContactsPane)
        ensures
            r.wf(),
            contacts_initial(r),
    {
        let options = vec![
            ContactsPaneItem::Contact(
                Contact { name: String::from_str("John Smith"), phone_number: String::new() },
            ),
            ContactsPaneItem::Contact(
                Contact { name: String::from_str("Jane Doe"), phone_number: String::new() },
            ),
            ContactsPaneItem::Contact(
                Contact { name: String::from_str("Ellen Poe"), phone_number: String::new() },
            ),
            ContactsPaneItem::Contact(
                Contact { name: String::from_str("Whoever Else"), phone_number: String::new() },
            ),
            ContactsPaneItem::AddNewButton,
        ];
        ContactsPane { menu: Menu::new(options), child: None }
    }

    pub fn process_input(&mut self, input: UserInput, now_ms: u64) -> (r: GuiAction)
        requires
            old(self).wf(),
            input.valid(),
        ensures
            final(self).wf(),
            contacts_steps(*old(self), *final(self), input, now_ms, r),
    {
        match &mut self.child {
            Some(c) => c.process_input(input, now_ms),
            None => match self.menu.process_input(input) {
                MenuInputEventResult::MenuItemSelected(item) => match item {
                    ContactsPaneItem::Contact(_) => GuiAction::Nothing,
                    ContactsPaneItem::AddNewButton => {
                        self.child = Some(
                            EditContactPane::new(
                                Contact { name: String::new(), phone_number: String::new() },
                            ),
                        );
                        GuiAction::ScreenUpdated
                    },
                },
                MenuInputEventResult::WrappedGuiAction(action) => action,
            },
        }
    }

    pub fn is_preventing_lock(&self) -> (r: bool)
        ensures
            r == self.prevents_lock(),
    {
        match &self.child {
            Some(c) => c.is_preventing_lock(),
            None => false,
        }
    }

    pub fn tick(&mut self, now_ms: u64) -> (r: GuiAction)
        requires
            old(self).wf(),
        ensures
            final(self).wf(),
            contacts_tick_steps(*old(self), *final(self), now_ms, r),
    {
        match &mut self.child {
            Some(c) => c.tick(now_ms),
            None => GuiAction::Nothing,
        }
    }

    /// The pop protocol: ask the child first; if it popped nothing
    /// deeper itself, close it here.
    pub fn pop_deepest(&mut self) -> (r: bool)
        requires
            old(self).wf(),
        ensures
            final(self).wf(),
            contacts_pop(*old(self), *final(self), r),
            r == (old(self).depth() > 0),
            final(self).depth() == (if old(self).depth() > 0 {
                (old(self).depth() - 1) as nat
            } else {
                0nat
            }),
    {
        let child_did_pop = match &mut self.child {
            Some(c) => c.pop_deepest(),
            None => {
                return false;
            },
        };
        if !child_did_pop {
            self.child = None;
        }
        true
    }

    /// The render pass: the open editor if there is one, else the
    /// contact menu.
    pub fn render_model(&mut self, metrics: &ScreenMetrics) -> (r: RenderModel)
        requires
            old(self).wf(),
            metrics.wf(),
        ensures
            final(self).wf(),
            contacts_render(*old(self), *final(self), *metrics, r),
    {
        match &mut self.child {
            Some(c) => c.render_model(metrics),
            None => RenderModel::MenuView(self.menu.layout(metrics)),
        }
    }
}

impl GuiElement for ContactsPane {
    open spec fn render_ready(&self, metrics: ScreenMetrics) -> bool {
        self.wf() && metrics.wf()
    }

    fn render(&mut self, metrics: &ScreenMetrics) -> (r: RenderModel) {
        self.render_model(metrics)
    }
}

} // verus!
