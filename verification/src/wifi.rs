//! The wireless radio manager's interface, plus the verified
//! configuration bookkeeping behind it: the command and status
//! vocabulary, the network configuration store, and the decision rules
//! that pick a radio configuration from the store and a scan result.

use vstd::prelude::*;
use vstd::string::StringExecFns;

verus! {

pub type SSID = String;

pub type PSKKey = String;

pub type WifiSignalStrength = u8;

/// A command sent to the radio manager.
#[derive(Clone)]
pub enum WifiCommand {
    ConnectWPA2PSK(SSID, PSKKey),
    CreateApWPA2PSK(SSID, PSKKey),
}

/// The station side's status, polled.
#[derive(Clone)]
pub enum ClientStatus {
    Connected(SSID, WifiSignalStrength),
    Disconnected,
    Standby,
    Error(WifiError),
}

/// The access-point side's status, polled.
#[derive(Clone)]
pub enum ApStatus {
    Enabled(SSID),
    Disabled,
    Error(WifiError),
}

/// The radio's overall status, polled.
#[derive(Clone)]
pub enum WifiStatus {
    Client(ClientStatus),
    Ap(ApStatus),
    Mixed(ClientStatus, ApStatus),
    Disabled,
    Error(WifiError),
}

/// A radio failure, carried as a message.
#[derive(Clone)]
pub enum WifiError {
    Unknown(String),
}

#[verifier::external_type_specification]
#[verifier::external_body]
#[verifier::reject_recursive_types(T)]
pub struct ExSendError<T>(std::sync::mpsc::SendError<T>);

/// The radio manager, held by the event loop to shut the system down
/// cleanly; implemented outside this crate per platform.
pub trait WifiModule {
    type Interface: WifiModuleInterface;

    fn signal_terminate(&mut self);

    fn join(self);

    fn get_status(&mut self) -> WifiStatus;

    fn get_interface(&self) -> Self::Interface;
}

/// The command side of the radio manager, cloneable so several owners
/// can send commands.
pub trait WifiModuleInterface: Sized + Clone {
    fn add_network_wpa2_psk(&mut self, ssid: SSID, key: PSKKey) -> Result<
        (),
        std::sync::mpsc::SendError<WifiCommand>,
    >;

    fn set_ap_wpa2_psk(&mut self, ssid: SSID, key: PSKKey) -> Result<
        (),
        std::sync::mpsc::SendError<WifiCommand>,
    >;
}

/// A stored station configuration: the network's name and key.
pub struct ClientConfig {
    pub ssid: String,
    pub password: String,
}

impl ClientConfig {
    fn duplicate(&self) -> (r: ClientConfig)
        ensures
            r == *self,
    {
        ClientConfig { ssid: self.ssid.clone(), password: self.password.clone() }
    }
}

/// A stored access-point configuration: name, key, and channel.
pub struct ApConfig {
    pub ssid: String,
    pub password: String,
    pub channel: u8,
}

impl ApConfig {
    fn duplicate(&self) -> (r: ApConfig)
        ensures
            r == *self,
    {
        ApConfig { ssid: self.ssid.clone(), password: self.password.clone(), channel: self.channel }
    }
}

/// Whether some stored station entry is keyed by the given network
/// name.
pub open spec fn has_client(entries: Seq<(String, ClientConfig)>, ssid: Seq<char>) -> bool {
    exists|i: int| 0 <= i < entries.len() && (#[trigger] entries[i].0)@ == ssid
}

/// The configuration store: station entries keyed by network name
/// (keys unique), and at most one access-point configuration.
pub struct WifiModuleConfig {
    pub client_configs: Vec<(String, ClientConfig)>,
    pub ap_config: Option<ApConfig>,
}

impl WifiModuleConfig {
    /// Station entries are keyed uniquely.
    pub open spec fn wf(&self) -> bool {
        forall|i: int, j: int|
            0 <= i < j < self.client_configs@.len() ==> (#[trigger] self.client_configs@[i].0)@ != (
            #[trigger] self.client_configs@[j].0)@
    }

    /// An empty store: no stations, no access point.
    pub fn new() -> (r: WifiModuleConfig)
        ensures
            r.wf(),
            r.client_configs@.len() == 0,
            r.ap_config is None,
    {
        WifiModuleConfig { client_configs: Vec::new(), ap_config: None }
    }
}

/// The store after recording an access point: the station entries are
/// kept, and the access-point slot holds the given name and key on
/// channel 1.
pub open spec fn ap_recorded(
    pre: WifiModuleConfig,
    post: WifiModuleConfig,
    ssid: String,
    key: String,
) -> bool {
    &&& post.client_configs == pre.client_configs
    &&& post.ap_config matches Some(ap) && ap.ssid == ssid && ap.password == key && ap.channel == 1
}

/// The store after recording a station configuration under its network
/// name: an entry already keyed by that name gets the new
/// configuration, any other entry is kept in place, and a new name is
/// appended.
pub open spec fn client_recorded(
    pre: WifiModuleConfig,
    post: WifiModuleConfig,
    ssid: String,
    key: String,
) -> bool {
    &&& post.ap_config == pre.ap_config
    &&& post.client_configs@.len() == pre.client_configs@.len() + (if has_client(
        pre.client_configs@,
        ssid@,
    ) {
        0int
    } else {
        1int
    })
    &&& forall|j: int|
        0 <= j < pre.client_configs@.len() ==> (#[trigger] post.client_configs@[j].0)@
            == pre.client_configs@[j].0@
    &&& forall|j: int|
        0 <= j < pre.client_configs@.len() && pre.client_configs@[j].0@ != ssid@
            ==> #[trigger] post.client_configs@[j] == pre.client_configs@[j]
    &&& forall|j: int|
        0 <= j < post.client_configs@.len() && (#[trigger] post.client_configs@[j].0)@ == ssid@
            ==> {
            &&& post.client_configs@[j].1.ssid@ == ssid@
            &&& post.client_configs@[j].1.password@ == key@
        }
    &&& !has_client(pre.client_configs@, ssid@) ==> post.client_configs@[
        pre.client_configs@.len() as int
    ].0@ == ssid@
}

/// Records the access-point configuration to run, replacing any earlier
/// access-point entry.
pub fn make_ap_wpa2_psk(configs: WifiModuleConfig, ssid: SSID, key: PSKKey) -> (r: WifiModuleConfig)
    requires
        configs.wf(),
    ensures
        r.wf(),
        ap_recorded(configs, r, ssid, key),
{
    let mut configs = configs;
    configs.ap_config = Some(ApConfig { ssid, password: key, channel: 1 });
    configs
}

/// Records a station configuration under its network name.
pub fn connect_wpa2_psk(configs: WifiModuleConfig, ssid: SSID, key: PSKKey) -> (r: WifiModuleConfig)
    requires
        configs.wf(),
    ensures
        r.wf(),
        client_recorded(configs, r, ssid, key),
{
    let mut updated = configs;
    let ghost orig = updated;
    let config = ClientConfig { ssid: ssid.clone(), password: key };
    let mut i: usize = 0;
    while i < updated.client_configs.len()
        invariant
            orig == configs,
            orig.wf(),
            updated.ap_config == orig.ap_config,
            updated.client_configs@ == orig.client_configs@,
            i <= orig.client_configs@.len(),
            forall|j: int| 0 <= j < i as int ==> (#[trigger] orig.client_configs@[j].0)@ != ssid@,
            config.ssid@ == ssid@,
            config.password@ == key@,
        decreases orig.client_configs@.len() - i,
    {
        let entry_matches = {
            let e = &updated.client_configs[i];
            e.0 == ssid
        };
        if entry_matches {
            updated.client_configs.set(i, (ssid, config));
            return updated;
        }
        i = i + 1;
    }
    updated.client_configs.push((ssid, config));
    updated
}

/// Applies one radio-manager command to the configuration store: a
/// connect command records a station entry, an access-point command
/// records the access point. The radio is reconfigured afterwards from
/// the store.
pub fn apply_wifi_command(configs: WifiModuleConfig, command: WifiCommand) -> (r: WifiModuleConfig)
    requires
        configs.wf(),
    ensures
        r.wf(),
        match command {
            WifiCommand::ConnectWPA2PSK(ssid, key) => client_recorded(configs, r, ssid, key),
            WifiCommand::CreateApWPA2PSK(ssid, key) => ap_recorded(configs, r, ssid, key),
        },
{
    match command {
        WifiCommand::ConnectWPA2PSK(ssid, key) => connect_wpa2_psk(configs, ssid, key),
        WifiCommand::CreateApWPA2PSK(ssid, key) => make_ap_wpa2_psk(configs, ssid, key),
    }
}

/// One network seen by a scan: its name and signal strength.
pub struct ScanAp {
    pub ssid: String,
    pub signal_strength: u8,
}

/// The first scan entry at or past `start` whose network has a stored
/// station configuration — the network the radio should try next.
pub fn next_client_match(configs: &WifiModuleConfig, scan: &Vec<ScanAp>, start: usize) -> (r:
    Option<usize>)
    ensures
        match r {
            Some(i) => {
                &&& start <= i < scan@.len()
                &&& has_client(configs.client_configs@, scan@[i as int].ssid@)
                &&& forall|j: int|
                    start <= j < i ==> !has_client(
                        configs.client_configs@,
                        (#[trigger] scan@[j]).ssid@,
                    )
            },
            None => forall|j: int|
                start <= j < scan@.len() ==> !has_client(
                    configs.client_configs@,
                    (#[trigger] scan@[j]).ssid@,
                ),
        },
{
    let mut i: usize = start;
    while i < scan.len()
        invariant
            start <= i,
            forall|j: int|
                start <= j < i as int ==> !has_client(
                    configs.client_configs@,
                    (#[trigger] scan@[j]).ssid@,
                ),
        decreases scan@.len() - i,
    {
        let mut k: usize = 0;
        let mut found = false;
        while k < configs.client_configs.len()
            invariant
                i < scan@.len(),
                k <= configs.client_configs@.len(),
                !found ==> forall|m: int|
                    0 <= m < k as int ==> (#[trigger] configs.client_configs@[m].0)@ != scan@[
                        i as int
                    ].ssid@,
                found ==> has_client(configs.client_configs@, scan@[i as int].ssid@),
            decreases configs.client_configs@.len() - k,
        {
            let entry_matches = {
                let e = &configs.client_configs[k];
                e.0 == scan[i].ssid
            };
            if entry_matches {
                found = true;
            }
            k = k + 1;
        }
        if found {
            return Some(i);
        }
        i = i + 1;
    }
    None
}

/// The radio configuration to apply for a matched station: mixed with
/// the stored access point when one is configured, station-only
/// otherwise.
pub enum WifiConfigChoice {
    ClientOnly(ClientConfig),
    MixedWithAp(ClientConfig, ApConfig),
}

/// Picks the configuration to apply once a scanned network matches a
/// stored station entry.
pub fn choose_configuration(configs: &WifiModuleConfig, client: &ClientConfig) -> (r:
    WifiConfigChoice)
    ensures
        match configs.ap_config {
            Some(ap) => r matches WifiConfigChoice::MixedWithAp(c, a) && c == *client && a == ap,
            None => r matches WifiConfigChoice::ClientOnly(c) && c == *client,
        },
{
    match &configs.ap_config {
        Some(ap) => WifiConfigChoice::MixedWithAp(client.duplicate(), ap.duplicate()),
        None => WifiConfigChoice::ClientOnly(client.duplicate()),
    }
}

/// The status to report after asking the radio to run as an access
/// point: enabled under its name on success, and the radio error
/// otherwise. `set_ok` is the radio's own answer, so it is taken as an
/// argument.
pub fn access_point_status(ap: &ApConfig, set_ok: bool) -> (r: Result<WifiStatus, WifiError>)
    ensures
        set_ok ==> (r matches Ok(s) && (s matches WifiStatus::Ap(a) && (a
            matches ApStatus::Enabled(name) && name@ == ap.ssid@))),
        !set_ok ==> (r matches Err(e) && (e matches WifiError::Unknown(m) && m@
            == "Failed to create AP"@)),
{
    if set_ok {
        Ok(WifiStatus::Ap(ApStatus::Enabled(ap.ssid.clone())))
    } else {
        Err(WifiError::Unknown(String::from_str("Failed to create AP")))
    }
}

/// The status to report after one attempt to apply a station
/// configuration for a matched scan entry: connected under the scanned
/// name and signal when the radio took the configuration and an access
/// point is also configured; otherwise no status yet — the scan loop
/// moves on to the next match.
pub fn client_attempt_status(configs: &WifiModuleConfig, matched: &ScanAp, set_ok: bool) -> (r:
    Option<WifiStatus>)
    ensures
        if set_ok && configs.ap_config is Some {
            r matches Some(s) && (s matches WifiStatus::Client(c) && (c
                matches ClientStatus::Connected(name, strength) && name@ == matched.ssid@
                && strength == matched.signal_strength))
        } else {
            r is None
        },
{
    if set_ok && configs.ap_config.is_some() {
        Some(
            WifiStatus::Client(
                ClientStatus::Connected(matched.ssid.clone(), matched.signal_strength),
            ),
        )
    } else {
        None
    }
}

} // verus!
