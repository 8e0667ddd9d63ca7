//! The root pane: a lock screen over the main menu. Any input while
//! locked unlocks (and is consumed); inactivity while unlocked re-locks
//! after a timeout, unless the active descendant is mid-edit.

use vstd::prelude::*;

use crate::gui::{spec_elapsed_ms, elapsed_ms, GuiAction, GuiElement, RenderModel, ScreenMetrics};
use crate::input::UserInput;
use crate::mainmenu::{
    main_initial, main_pop, main_render, main_steps, main_tick_steps, MainMenuPane,
};

verus! {

/// Inactivity after which the unlocked root re-locks.
pub const AUTO_LOCK_TIMEOUT_MS: u64 = 30000;

/// The root of the navigation chain: the lock state, the time of the
/// last input, and the permanent main-menu child.
pub struct RootPane {
    pub last_input_ms: u64,
    pub child: MainMenuPane,
    pub is_unlocked: bool,
}

/// The root as freshly booted: locked, over a fresh main menu.
pub open spec fn root_initial(p: RootPane, now_ms: u64) -> bool {
    &&& p.last_input_ms == now_ms
    &&& !p.is_unlocked
    &&& main_initial(p.child)
}

/// How one input steps the root. While locked, any input unlocks,
/// repaints, and is consumed (not forwarded). While unlocked, the
/// last-input time is refreshed and the input forwarded to the child,
/// whose result is returned unmodified.
pub open spec fn root_steps(
    pre: RootPane,
    post: RootPane,
    input: UserInput,
    now_ms: u64,
    r: GuiAction,
) -> bool {
    if pre.is_unlocked {
        &&& post.is_unlocked
        &&& post.last_input_ms == now_ms
        &&& main_steps(pre.child, post.child, input, now_ms, r)
    } else {
        &&& post.is_unlocked
        &&& post.last_input_ms == now_ms
        &&& post.child == pre.child
        &&& r == GuiAction::ScreenUpdated
    }
}

/// How one time slice steps the root. Unlocked and idle past the
/// timeout, it re-locks and repaints — deferred while the active
/// descendant reports it prevents the auto-lock. Otherwise the tick is
/// forwarded to the child. A locked root does nothing.
pub open spec fn root_tick_steps(
    pre: RootPane,
    post: RootPane,
    now_ms: u64,
    r: GuiAction,
) -> bool {
    if pre.is_unlocked {
        if spec_elapsed_ms(pre.last_input_ms, now_ms) > AUTO_LOCK_TIMEOUT_MS
            && !pre.child.prevents_lock() {
            &&& !post.is_unlocked
            &&& post.last_input_ms == pre.last_input_ms
            &&& post.child == pre.child
            &&& r == GuiAction::ScreenUpdated
        } else {
            &&& post.is_unlocked
            &&& post.last_input_ms == pre.last_input_ms
            &&& main_tick_steps(pre.child, post.child, now_ms, r)
        }
    } else {
        post == pre && r == GuiAction::Nothing
    }
}

impl RootPane {
    /// The root's invariant: its child chain is well formed.
    pub open spec fn wf(&self) -> bool {
        self.child.wf()
    }

    /// Open views nested under the root; the permanent main menu is a
    /// fixture, not an open view, so only views below it count.
    pub open spec fn depth(&self) -> nat {
        self.child.depth()
    }

    /// Whether the active descendant defers the inactivity auto-lock.
    pub open spec fn prevents_lock(&self) -> bool {
        self.child.prevents_lock()
    }

    pub fn new(now_ms: u64) -> (r: RootPane)
        ensures
            r.wf(),
            root_initial(r, now_ms),
    {
        RootPane { last_input_ms: now_ms, child: MainMenuPane::new(), is_unlocked: false }
    }

    pub fn process_input(&mut self, input: UserInput, now_ms: u64) -> (r: GuiAction)
        requires
            old(self).wf(),
            input.valid(),
        ensures
            final(self).wf(),
            root_steps(*old(self), *final(self), input, now_ms, r),
    {
        if self.is_unlocked {
            self.last_input_ms = now_ms;
            self.child.process_input(input, now_ms)
        } else {
            self.is_unlocked = true;
            self.last_input_ms = now_ms;
            GuiAction::ScreenUpdated
        }
    }

    pub fn is_preventing_lock(&self) -> (r: bool)
        ensures
            r == self.prevents_lock(),
    {
        self.child.is_preventing_lock()
    }

    pub fn tick(&mut self, now_ms: u64) -> (r: GuiAction)
        requires
            old(self).wf(),
        ensures
            final(self).wf(),
            root_tick_steps(*old(self), *final(self), now_ms, r),
    {
        if self.is_unlocked {
            let idle = elapsed_ms(self.last_input_ms, now_ms) > AUTO_LOCK_TIMEOUT_MS;
            if idle && !self.child.is_preventing_lock() {
                self.is_unlocked = false;
                GuiAction::ScreenUpdated
            } else {
                self.child.tick(now_ms)
            }
        } else {
            GuiAction::Nothing
        }
    }

    /// The pop protocol at the root: the main menu is permanent, so the
    /// root only forwards and never discards its child.
    pub fn pop_deepest(&mut self) -> (r: bool)
        requires
            old(self).wf(),
        ensures
            final(self).wf(),
            final(self).is_unlocked == old(self).is_unlocked,
            final(self).last_input_ms == old(self).last_input_ms,
            main_pop(old(self).child, final(self).child, r),
            r == (old(self).depth() > 0),
            final(self).depth() == (if old(self).depth() > 0 {
                (old(self).depth() - 1) as nat
            } else {
                0nat
            }),
    {
        self.child.pop_deepest()
    }

    /// The render pass: a locked root shows a blank screen; an unlocked
    /// one shows the deepest open view.
    pub fn render_model(&mut self, metrics: &ScreenMetrics) -> (r: RenderModel)
        requires
            old(self).wf(),
            metrics.wf(),
        ensures
            final(self).wf(),
            final(self).is_unlocked == old(self).is_unlocked,
            final(self).last_input_ms == old(self).last_input_ms,
            !old(self).is_unlocked ==> *final(self) == *old(self) && r is Blank,
            old(self).is_unlocked ==> main_render(old(self).child, final(self).child, *metrics, r),
    {
        if self.is_unlocked {
            self.child.render_model(metrics)
        } else {
            RenderModel::Blank
        }
    }
}

impl GuiElement for RootPane {
    open spec fn render_ready(&self, metrics: ScreenMetrics) -> bool {
        self.wf() && metrics.wf()
    }

    fn render(&mut self, metrics: &ScreenMetrics) -> (r: RenderModel) {
        self.render_model(metrics)
    }
}

} // verus!
