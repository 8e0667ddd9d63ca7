//! The scrollable menu widget: an ordered option list, a cursor with
//! wraparound, digit shortcuts, and a render pass that keeps the cursor
//! row inside the viewport.

use vstd::prelude::*;
use vstd::string::StringExecFns;

use crate::gui::{GuiAction, GuiElement, MenuLayout, MenuRow, RenderModel, ScreenMetrics};
use crate::input::{digit_char, spec_digit_char, UserInput};

verus! {

/// How a menu option behaves when selected.
#[derive(Clone, Copy, Debug, PartialEq, Eq, Structural)]
pub enum MenuElementType {
    Button,
    Callable,
    NumberEntry,
    TextEntry,
    CheckBox,
}

/// Capabilities of a menu option: a label, a behavioral kind, and the
/// ability to hand out a copy of itself when selected.
pub trait MenuElement: Sized {
    spec fn spec_label(&self) -> Seq<char>;

    spec fn spec_item_type(&self) -> MenuElementType;

    fn display_label(&self) -> (r: String)
        ensures
            r@ == self.spec_label(),
    ;

    fn menu_item_type(&self) -> (r: MenuElementType)
        ensures
            r == self.spec_item_type(),
    ;

    fn duplicate(&self) -> (r: Self)
        ensures
            r == *self,
    ;
}

/// What one menu input produced: either the option under the selection,
/// or an action the hosting pane passes along.
pub enum MenuInputEventResult<MenuOption> {
    MenuItemSelected(MenuOption),
    WrappedGuiAction(GuiAction),
}

/// A menu: an option list, the cursor into it, and the vertical scroll
/// position of the last render pass.
pub struct Menu<MenuOption> {
    pub options: Vec<MenuOption>,
    pub cursor: usize,
    pub y_offset_pixels: i32,
}

/// Cursor position after one Up press: one step back, wrapping to the
/// last option from the first.
pub open spec fn up_cursor(cursor: nat, len: nat) -> nat
    recommends
        len > 0,
{
    if cursor == 0 {
        (len - 1) as nat
    } else {
        (cursor - 1) as nat
    }
}

/// Cursor position after one Down press: one step forward, wrapping to
/// the first option from the last.
pub open spec fn down_cursor(cursor: nat, len: nat) -> nat
    recommends
        len > 0,
{
    if cursor + 1 == len {
        0
    } else {
        cursor + 1
    }
}

/// Where the cursor stands after one input: only Up and Down move it.
pub open spec fn cursor_after(cursor: nat, len: nat, input: UserInput) -> nat {
    match input {
        UserInput::Up => up_cursor(cursor, len),
        UserInput::Down => down_cursor(cursor, len),
        _ => cursor,
    }
}

/// The result one menu input produces, per the selection table: SoftKey
/// selects the option under the cursor; digit n selects option n-1 when
/// 1 <= n <= len, else it is a no-op repaint; Call asks the hosting pane
/// to close; Up/Down repaint; Star/Hash/Power do nothing.
pub open spec fn menu_result<MenuOption>(
    options: Seq<MenuOption>,
    cursor: nat,
    input: UserInput,
) -> MenuInputEventResult<MenuOption> {
    match input {
        UserInput::Up => MenuInputEventResult::WrappedGuiAction(GuiAction::ScreenUpdated),
        UserInput::Down => MenuInputEventResult::WrappedGuiAction(GuiAction::ScreenUpdated),
        UserInput::Call => MenuInputEventResult::WrappedGuiAction(GuiAction::PopPane),
        UserInput::SoftKey => MenuInputEventResult::MenuItemSelected(options[cursor as int]),
        UserInput::Number(n) => if n != 0 && n as int <= options.len() {
            MenuInputEventResult::MenuItemSelected(options[n - 1])
        } else {
            MenuInputEventResult::WrappedGuiAction(GuiAction::ScreenUpdated)
        },
        _ => MenuInputEventResult::WrappedGuiAction(GuiAction::Nothing),
    }
}

/// The scroll offset after clamping: never above the cursor row's top,
/// and never more than `max_top` above it, so the cursor stays visible.
pub open spec fn clamped_offset(old_offset: int, predicted_top: int, max_top: int) -> int {
    let lowered = if predicted_top < old_offset {
        predicted_top
    } else {
        old_offset
    };
    if predicted_top - lowered > max_top {
        predicted_top - max_top
    } else {
        lowered
    }
}

/// The text of one laid-out row: options ranked 1..=9 carry their
/// ordinal as a digit-selection hint; later options render with an
/// empty ordinal — just the label — since digit selection cannot reach
/// them.
pub open spec fn row_label(i: int, label: Seq<char>) -> Seq<char> {
    if i < 9 {
        seq![spec_digit_char((i + 1) as u8)] + ": "@ + label
    } else {
        label
    }
}

/// What a finished menu render pass looks like for a given menu state:
/// one row per option at a fixed row height, positioned against the
/// clamped scroll offset, the cursor row marked for inverted drawing.
pub open spec fn menu_layout_matches<MenuOption: MenuElement>(
    menu: Menu<MenuOption>,
    r: MenuLayout,
    metrics: ScreenMetrics,
) -> bool {
    &&& r.rows@.len() == menu.options@.len()
    &&& forall|i: int|
        0 <= i < r.rows@.len() ==> {
            &&& (#[trigger] r.rows@[i]).selected == (i == menu.cursor as int)
            &&& r.rows@[i].x == metrics.char_width as i32
            &&& r.rows@[i].y as int == metrics.char_width as int + i * metrics.char_height as int
                - menu.y_offset_pixels as int
            &&& r.rows@[i].label@ == row_label(i, menu.options@[i].spec_label())
        }
}

impl<MenuOption> Menu<MenuOption> {
    /// The cursor addresses an option whenever there is one, and the
    /// scroll position never points above the first row.
    pub open spec fn wf(&self) -> bool {
        &&& self.cursor < self.options.len() || (self.options.len() == 0 && self.cursor == 0)
        &&& self.y_offset_pixels >= 0
    }
}

impl<MenuOption: MenuElement> Menu<MenuOption> {
    pub fn new(options: Vec<MenuOption>) -> (r: Menu<MenuOption>)
        ensures
            r.options == options,
            r.cursor == 0,
            r.y_offset_pixels == 0,
            r.wf(),
    {
        Menu { options, cursor: 0, y_offset_pixels: 0 }
    }

    /// One input against the menu. Up/Down need a non-empty option list
    /// to wrap over, and SoftKey an option under the cursor; every pane
    /// in this crate builds its menus non-empty.
    pub fn process_input(&mut self, input: UserInput) -> (r: MenuInputEventResult<MenuOption>)
        requires
            old(self).wf(),
            input is Up || input is Down || input is SoftKey ==> old(self).options.len() > 0,
        ensures
            final(self).wf(),
            final(self).options == old(self).options,
            final(self).y_offset_pixels == old(self).y_offset_pixels,
            final(self).cursor as nat == cursor_after(
                old(self).cursor as nat,
                old(self).options.len() as nat,
                input,
            ),
            r == menu_result(old(self).options@, old(self).cursor as nat, input),
    {
        match input {
            UserInput::Up => {
                if self.cursor == 0 {
                    self.cursor = self.options.len() - 1;
                } else {
                    self.cursor = self.cursor - 1;
                }
                MenuInputEventResult::WrappedGuiAction(GuiAction::ScreenUpdated)
            },
            UserInput::Down => {
                if self.cursor == self.options.len() - 1 {
                    self.cursor = 0;
                } else {
                    self.cursor = self.cursor + 1;
                }
                MenuInputEventResult::WrappedGuiAction(GuiAction::ScreenUpdated)
            },
            UserInput::Call => MenuInputEventResult::WrappedGuiAction(GuiAction::PopPane),
            UserInput::SoftKey => MenuInputEventResult::MenuItemSelected(
                self.options[self.cursor].duplicate(),
            ),
            UserInput::Number(num) => {
                if num != 0 && (num as usize) <= self.options.len() {
                    MenuInputEventResult::MenuItemSelected(
                        self.options[(num - 1) as usize].duplicate(),
                    )
                } else {
                    MenuInputEventResult::WrappedGuiAction(GuiAction::ScreenUpdated)
                }
            },
            UserInput::Star => MenuInputEventResult::WrappedGuiAction(GuiAction::Nothing),
            UserInput::Hash => MenuInputEventResult::WrappedGuiAction(GuiAction::Nothing),
            UserInput::Power => MenuInputEventResult::WrappedGuiAction(GuiAction::Nothing),
        }
    }

    /// Lays the menu out: clamps the scroll offset so the cursor row is
    /// visible, then emits one row per option at a fixed row height,
    /// the cursor row marked for inverted drawing.
    pub fn layout(&mut self, metrics: &ScreenMetrics) -> (r: MenuLayout)
        requires
            old(self).wf(),
            metrics.wf(),
            old(self).options.len() <= 10000,
        ensures
            final(self).wf(),
            final(self).options == old(self).options,
            final(self).cursor == old(self).cursor,
            final(self).y_offset_pixels as int == clamped_offset(
                old(self).y_offset_pixels as int,
                old(self).cursor as int * metrics.char_height as int,
                metrics.height as int - 2 * metrics.char_width as int
                    - metrics.char_height as int,
            ),
            menu_layout_matches(*final(self), r, *metrics),
    {
        let ch: i32 = metrics.char_height as i32;
        let cw: i32 = metrics.char_width as i32;
        proof {
            let c = old(self).cursor as int;
            let h = ch as int;
            assert(c * h <= 10000 * 128) by (nonlinear_arith)
                requires
                    c <= 10000,
                    0 <= c,
                    0 <= h <= 128,
            ;
        }
        let predicted_top: i32 = (self.cursor as i32) * ch;
        let max_top: i32 = metrics.height as i32 - 2 * cw - ch;
        if predicted_top < self.y_offset_pixels {
            self.y_offset_pixels = predicted_top;
        }
        if predicted_top - self.y_offset_pixels > max_top {
            self.y_offset_pixels = predicted_top - max_top;
        }
        let mut rows: Vec<MenuRow> = Vec::new();
        let mut i: usize = 0;
        while i < self.options.len()
            invariant
                self.wf(),
                self.options == old(self).options,
                self.cursor == old(self).cursor,
                self.y_offset_pixels as int == clamped_offset(
                    old(self).y_offset_pixels as int,
                    old(self).cursor as int * metrics.char_height as int,
                    metrics.height as int - 2 * metrics.char_width as int
                        - metrics.char_height as int,
                ),
                self.y_offset_pixels <= 2000000,
                metrics.wf(),
                ch == metrics.char_height as i32,
                cw == metrics.char_width as i32,
                i <= self.options.len(),
                self.options.len() <= 10000,
                rows@.len() == i as int,
                forall|j: int|
                    0 <= j < i as int ==> {
                        &&& (#[trigger] rows@[j]).selected == (j == self.cursor as int)
                        &&& rows@[j].x == metrics.char_width as i32
                        &&& rows@[j].y as int == metrics.char_width as int + j
                            * metrics.char_height as int - self.y_offset_pixels as int
                        &&& rows@[j].label@ == row_label(j, self.options@[j].spec_label())
                    },
            decreases self.options.len() - i,
        {
            let label: String = if i < 9 {
                let mut s = String::new();
                s.push(digit_char((i + 1) as u8));
                s.append(": ");
                s.append(self.options[i].display_label().as_str());
                s
            } else {
                self.options[i].display_label()
            };
            proof {
                let k = i as int;
                let h = ch as int;
                assert(k * h <= 10000 * 128) by (nonlinear_arith)
                    requires
                        0 <= k <= 10000,
                        0 <= h <= 128,
                ;
            }
            let y: i32 = cw + (i as i32) * ch - self.y_offset_pixels;
            let selected = i == self.cursor;
            rows.push(MenuRow { label, selected, x: cw, y });
            i = i + 1;
        }
        MenuLayout { rows }
    }
}

impl<MenuOption: MenuElement> GuiElement for Menu<MenuOption> {
    open spec fn render_ready(&self, metrics: ScreenMetrics) -> bool {
        self.wf() && metrics.wf() && self.options.len() <= 10000
    }

    fn render(&mut self, metrics: &ScreenMetrics) -> (r: RenderModel) {
        RenderModel::MenuView(self.layout(metrics))
    }
}

/// The cursor after `k` consecutive Down presses.
pub open spec fn iter_down(cursor: nat, len: nat, k: nat) -> nat
    decreases k,
{
    if k == 0 {
        cursor
    } else {
        down_cursor(iter_down(cursor, len, (k - 1) as nat), len)
    }
}

/// The cursor after `k` consecutive Up presses.
pub open spec fn iter_up(cursor: nat, len: nat, k: nat) -> nat
    decreases k,
{
    if k == 0 {
        cursor
    } else {
        up_cursor(iter_up(cursor, len, (k - 1) as nat), len)
    }
}

proof fn lemma_iter_down_closed_form(cursor: nat, len: nat, k: nat)
    requires
        cursor < len,
        k <= len,
    ensures
        iter_down(cursor, len, k) == if cursor + k < len {
            cursor + k
        } else {
            (cursor + k - len) as nat
        },
    decreases k,
{
    if k > 0 {
        lemma_iter_down_closed_form(cursor, len, (k - 1) as nat);
    }
}

proof fn lemma_iter_up_closed_form(cursor: nat, len: nat, k: nat)
    requires
        cursor < len,
        k <= len,
    ensures
        iter_up(cursor, len, k) == if k <= cursor {
            (cursor - k) as nat
        } else {
            (cursor + len - k) as nat
        },
    decreases k,
{
    if k > 0 {
        lemma_iter_up_closed_form(cursor, len, (k - 1) as nat);
    }
}

/// Law: on a non-empty option list of length `len`, `len` consecutive
/// Down presses return the cursor to where it started.
pub proof fn lemma_down_wraparound(cursor: nat, len: nat)
    requires
        len > 0,
        cursor < len,
    ensures
        iter_down(cursor, len, len) == cursor,
{
    lemma_iter_down_closed_form(cursor, len, len);
}

/// Law: on a non-empty option list of length `len`, `len` consecutive
/// Up presses return the cursor to where it started.
pub proof fn lemma_up_wraparound(cursor: nat, len: nat)
    requires
        len > 0,
        cursor < len,
    ensures
        iter_up(cursor, len, len) == cursor,
{
    lemma_iter_up_closed_form(cursor, len, len);
}

} // verus!
