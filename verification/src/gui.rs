//! Shared GUI vocabulary: the signal every input handler returns, the
//! screen metrics a render pass works from, and the layout models a
//! render pass produces for the drawing layer to realize.

use vstd::prelude::*;

verus! {

/// A pane's directive to its caller after handling one input or one
/// time slice: repaint the screen, reject the input, close the deepest
/// open view, or do nothing.
#[derive(Clone, Copy, Debug, PartialEq, Eq, Structural)]
pub enum GuiAction {
    ScreenUpdated,
    InvalidInput,
    PopPane,
    Nothing,
}

/// Fixed measurements a render pass lays text out against: the screen
/// size and the character cell of the monospaced face in use.
#[derive(Clone, Copy, Debug, PartialEq, Eq, Structural)]
pub struct ScreenMetrics {
    pub width: u32,
    pub height: u32,
    pub char_width: u32,
    pub char_height: u32,
}

impl ScreenMetrics {
    /// Bounds under which every layout computation in this crate stays
    /// inside `i32` arithmetic.
    pub open spec fn wf(self) -> bool {
        &&& 1 <= self.char_height <= 128
        &&& self.char_width <= 128
        &&& self.height <= 16384
        &&& self.width <= 16384
    }
}

/// Milliseconds elapsed from `last` to `now` on a monotonic clock; a
/// clock reading that stepped backwards counts as no time elapsed.
pub open spec fn spec_elapsed_ms(last: u64, now: u64) -> u64 {
    if now >= last {
        (now - last) as u64
    } else {
        0
    }
}

/// Milliseconds elapsed from `last` to `now`, saturating at zero.
pub fn elapsed_ms(last: u64, now: u64) -> (r: u64)
    ensures
        r == spec_elapsed_ms(last, now),
{
    if now >= last {
        now - last
    } else {
        0
    }
}

/// One laid-out menu row: its text, whether it is the row under the
/// cursor (drawn inverted over a filled box), and its top-left corner.
pub struct MenuRow {
    pub label: String,
    pub selected: bool,
    pub x: i32,
    pub y: i32,
}

/// A whole menu render pass: one row per option, top to bottom.
pub struct MenuLayout {
    pub rows: Vec<MenuRow>,
}

/// A text-entry render pass: the prompt, the committed text, and the
/// pending preview character (underlined by the drawing layer), or no
/// preview, in which case an underscore cursor is drawn instead.
pub struct TextLayout {
    pub prompt: String,
    pub committed: String,
    pub preview: Option<char>,
}

/// What one render pass asks the drawing layer to put on screen.
pub enum RenderModel {
    Blank,
    MenuView(MenuLayout),
    TextView(TextLayout),
}

/// Anything that can lay itself out for the screen. The layout work is
/// done by each type's own contracted method; this trait only names the
/// capability and its precondition.
pub trait GuiElement {
    spec fn render_ready(&self, metrics: ScreenMetrics) -> bool;

    fn render(&mut self, metrics: &ScreenMetrics) -> (r: RenderModel)
        requires
            old(self).render_ready(*metrics),
    ;
}

} // verus!
