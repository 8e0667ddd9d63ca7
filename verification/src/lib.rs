//! Application core of a minimalist keypad handset: a pane-navigation
//! engine built from modal views, a multi-tap text-entry state machine,
//! and a display bridge that packs draw operations into a monochrome
//! framebuffer and serves it over a line-oriented remote protocol.

mod bridge;
mod contacts;
mod dummy;
mod edit_contact;
mod gui;
mod input;
mod lockscreen;
mod mainmenu;
mod menu;
mod rt_ctl;
mod settings;
mod sip;
mod strings;
mod text_input;
mod wifi;

pub use bridge::AssemblerEvent;
pub use bridge::FrameAssembler;
pub use bridge::Framebuffer;
pub use bridge::PixelOp;
pub use bridge::RemoteByte;
pub use bridge::TelnetModuleInputInterface;
pub use bridge::clear_screen_sequence;
pub use bridge::map_input_byte;
pub use contacts::Contact;
pub use contacts::ContactsPane;
pub use contacts::ContactsPaneItem;
pub use dummy::DummyRtSystemControl;
pub use dummy::DummyWifiInterface;
pub use dummy::DummyWifiModule;
pub use edit_contact::ContactAttribute;
pub use edit_contact::EditContactPane;
pub use gui::GuiAction;
pub use gui::GuiElement;
pub use gui::MenuLayout;
pub use gui::MenuRow;
pub use gui::RenderModel;
pub use gui::ScreenMetrics;
pub use gui::TextLayout;
pub use input::InputModule;
pub use input::UserInput;
pub use lockscreen::RootPane;
pub use lockscreen::AUTO_LOCK_TIMEOUT_MS;
pub use mainmenu::ChildPane;
pub use mainmenu::MainMenuOptions;
pub use mainmenu::MainMenuPane;
pub use menu::Menu;
pub use menu::MenuElement;
pub use menu::MenuElementType;
pub use menu::MenuInputEventResult;
pub use settings::SettingsOptions;
pub use settings::SettingsPane;
pub use sip::register;
pub use sip::register_request;
pub use sip::sip_config_decision;
pub use sip::RegisterRequest;
pub use sip::SipConfig;
pub use sip::OUTGOING_PORT;
pub use rt_ctl::RtSystemControl;
pub use text_input::KeyboardType;
pub use text_input::TextInputHelper;
pub use text_input::TextInputResult;
pub use wifi::access_point_status;
pub use wifi::apply_wifi_command;
pub use wifi::choose_configuration;
pub use wifi::client_attempt_status;
pub use wifi::connect_wpa2_psk;
pub use wifi::make_ap_wpa2_psk;
pub use wifi::next_client_match;
pub use wifi::ApConfig;
pub use wifi::ApStatus;
pub use wifi::ClientConfig;
pub use wifi::ClientStatus;
pub use wifi::PSKKey;
pub use wifi::ScanAp;
pub use wifi::WifiCommand;
pub use wifi::WifiConfigChoice;
pub use wifi::WifiError;
pub use wifi::WifiModule;
pub use wifi::WifiModuleConfig;
pub use wifi::WifiModuleInterface;
pub use wifi::WifiSignalStrength;
pub use wifi::WifiStatus;
pub use wifi::SSID;

use vstd::prelude::*;

use crate::lockscreen::{root_initial, root_steps, root_tick_steps};
use crate::mainmenu::{main_pop, main_render};

verus! {

/// The application core: the navigation chain under its root pane, and
/// whether the screen content has changed since the last render pass.
pub struct Bricc {
    pub root_pane: RootPane,
    pub screen_needs_update: bool,
}

/// How the root loop acts on one pane signal: a repaint request marks
/// the screen dirty, a pop request pops the deepest open view and marks
/// the screen dirty, and the other signals change nothing.
pub open spec fn action_applied(
    mid: RootPane,
    post: Bricc,
    pre_needs_update: bool,
    r: GuiAction,
) -> bool {
    match r {
        GuiAction::ScreenUpdated => post.root_pane == mid && post.screen_needs_update,
        GuiAction::PopPane => {
            &&& post.root_pane.is_unlocked == mid.is_unlocked
            &&& post.root_pane.last_input_ms == mid.last_input_ms
            &&& main_pop(mid.child, post.root_pane.child, mid.depth() > 0)
            &&& post.screen_needs_update
        },
        GuiAction::InvalidInput => post.root_pane == mid && post.screen_needs_update
            == pre_needs_update,
        GuiAction::Nothing => post.root_pane == mid && post.screen_needs_update
            == pre_needs_update,
    }
}

/// How one polled input steps the core: the root pane handles it, and
/// the signal it returns is acted on.
pub open spec fn bricc_input_steps(pre: Bricc, post: Bricc, input: UserInput, now_ms: u64) -> bool {
    exists|mid: RootPane, r: GuiAction|
        #[trigger] root_steps(pre.root_pane, mid, input, now_ms, r) && action_applied(
            mid,
            post,
            pre.screen_needs_update,
            r,
        )
}

/// How one time slice steps the core: the root pane ticks, and the
/// signal it returns is acted on.
pub open spec fn bricc_tick_steps(pre: Bricc, post: Bricc, now_ms: u64) -> bool {
    exists|mid: RootPane, r: GuiAction|
        #[trigger] root_tick_steps(pre.root_pane, mid, now_ms, r) && action_applied(
            mid,
            post,
            pre.screen_needs_update,
            r,
        )
}

impl Bricc {
    /// The core's invariant: the pane chain is well formed.
    pub open spec fn wf(&self) -> bool {
        self.root_pane.wf()
    }

    /// A freshly booted core: locked root pane, screen to be drawn.
    pub fn new(now_ms: u64) -> (r: Bricc)
        ensures
            r.wf(),
            root_initial(r.root_pane, now_ms),
            r.screen_needs_update,
    {
        Bricc { root_pane: RootPane::new(now_ms), screen_needs_update: true }
    }

    /// Feeds one polled input through the pane chain and acts on the
    /// returned signal.
    pub fn on_input(&mut self, input: UserInput, now_ms: u64)
        requires
            old(self).wf(),
            input.valid(),
        ensures
            final(self).wf(),
            bricc_input_steps(*old(self), *final(self), input, now_ms),
    {
        let action = self.root_pane.process_input(input, now_ms);
        let ghost mid = self.root_pane;
        let ghost r = action;
        match action {
            GuiAction::ScreenUpdated => {
                self.screen_needs_update = true;
            },
            GuiAction::InvalidInput => {},
            GuiAction::Nothing => {},
            GuiAction::PopPane => {
                let _popped = self.root_pane.pop_deepest();
                self.screen_needs_update = true;
            },
        }
        proof {
            assert(root_steps(old(self).root_pane, mid, input, now_ms, r));
            assert(action_applied(mid, *self, old(self).screen_needs_update, r));
        }
    }

    /// Gives the pane chain its time slice and acts on the returned
    /// signal.
    pub fn on_tick(&mut self, now_ms: u64)
        requires
            old(self).wf(),
        ensures
            final(self).wf(),
            bricc_tick_steps(*old(self), *final(self), now_ms),
    {
        let action = self.root_pane.tick(now_ms);
        let ghost mid = self.root_pane;
        let ghost r = action;
        match action {
            GuiAction::ScreenUpdated => {
                self.screen_needs_update = true;
            },
            GuiAction::InvalidInput => {},
            GuiAction::Nothing => {},
            GuiAction::PopPane => {
                let _popped = self.root_pane.pop_deepest();
                self.screen_needs_update = true;
            },
        }
        proof {
            assert(root_tick_steps(old(self).root_pane, mid, now_ms, r));
            assert(action_applied(mid, *self, old(self).screen_needs_update, r));
        }
    }

    /// One render decision: if the screen content changed since the
    /// last pass, lay out the deepest open view (a locked root lays out
    /// a blank screen) and clear the dirty mark; otherwise draw nothing.
    pub fn render_pass(&mut self, metrics: &ScreenMetrics) -> (r: Option<RenderModel>)
        requires
            old(self).wf(),
            metrics.wf(),
        ensures
            final(self).wf(),
            !old(self).screen_needs_update ==> *final(self) == *old(self) && r is None,
            old(self).screen_needs_update ==> {
                &&& !final(self).screen_needs_update
                &&& final(self).root_pane.is_unlocked == old(self).root_pane.is_unlocked
                &&& final(self).root_pane.last_input_ms == old(self).root_pane.last_input_ms
                &&& r is Some
                &&& (!old(self).root_pane.is_unlocked ==> final(self).root_pane
                    == old(self).root_pane && r == Some(RenderModel::Blank))
                &&& (old(self).root_pane.is_unlocked ==> (r matches Some(model) && main_render(
                    old(self).root_pane.child,
                    final(self).root_pane.child,
                    *metrics,
                    model,
                )))
            },
    {
        if self.screen_needs_update {
            self.screen_needs_update = false;
            Some(self.root_pane.render_model(metrics))
        } else {
            None
        }
    }
}

} // verus!
