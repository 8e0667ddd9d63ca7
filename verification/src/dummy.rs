//! Stand-in collaborators for running the core without real hardware: a
//! radio manager that is always disabled and a realtime control surface
//! that does nothing.

use vstd::prelude::*;

use crate::rt_ctl::RtSystemControl;
use crate::wifi::{PSKKey, WifiCommand, WifiModule, WifiModuleInterface, WifiStatus, SSID};

verus! {

/// A radio manager with no radio: every command is accepted and
/// dropped, and the status is always `Disabled`.
#[derive(Clone)]
pub struct DummyWifiModule {}

impl WifiModule for DummyWifiModule {
    type Interface = DummyWifiInterface;

    fn signal_terminate(&mut self) {
    }

    fn join(self) {
    }

    fn get_status(&mut self) -> (r: WifiStatus)
        ensures
            r is Disabled,
    {
        WifiStatus::Disabled
    }

    fn get_interface(&self) -> Self::Interface {
        DummyWifiInterface {  }
    }
}

impl DummyWifiModule {
    pub fn new() -> DummyWifiModule {
        DummyWifiModule {  }
    }
}

/// The command side of the absent radio: every command succeeds.
#[derive(Clone)]
pub struct DummyWifiInterface {}

impl WifiModuleInterface for DummyWifiInterface {
    fn add_network_wpa2_psk(&mut self, ssid: SSID, key: PSKKey) -> Result<
        (),
        std::sync::mpsc::SendError<WifiCommand>,
    > {
        Ok(())
    }

    fn set_ap_wpa2_psk(&mut self, ssid: SSID, key: PSKKey) -> Result<
        (),
        std::sync::mpsc::SendError<WifiCommand>,
    > {
        Ok(())
    }
}

/// A realtime control surface with no watchdog behind it.
pub struct DummyRtSystemControl {}

impl RtSystemControl for DummyRtSystemControl {
    fn wdt_subscribe_me() {
    }

    fn wdt_unsubscribe_me() {
    }

    fn wdt_feed_the_puppy() {
    }

    fn set_low_priority() {
    }
}

} // verus!
