use bricc::{
    access_point_status, apply_wifi_command, choose_configuration, client_attempt_status,
    connect_wpa2_psk, make_ap_wpa2_psk, next_client_match, register, register_request,
    sip_config_decision, ApStatus, ClientStatus, DummyWifiInterface, DummyWifiModule, ScanAp,
    WifiCommand, WifiConfigChoice, WifiError, WifiModule, WifiModuleConfig, WifiModuleInterface,
    WifiStatus,
};

#[test]
fn sip_decision_rejects_disabled_line() {
    let r = sip_config_decision(None, None, None, None);
    assert_eq!(r.unwrap_err(), "SIP line disabled");
    let r = sip_config_decision(Some(false), Some("u".into()), Some("p".into()), Some("d".into()));
    assert_eq!(r.unwrap_err(), "SIP line disabled");
}

#[test]
fn sip_decision_reports_each_missing_piece() {
    let r = sip_config_decision(Some(true), None, None, None);
    assert_eq!(r.unwrap_err(), "SIP line enabled but no user");
    let r = sip_config_decision(Some(true), Some("u".into()), None, None);
    assert_eq!(r.unwrap_err(), "SIP line enabled but no pw");
    let r = sip_config_decision(Some(true), Some("u".into()), Some("p".into()), None);
    assert_eq!(r.unwrap_err(), "SIP line enabled but no domain");
}

#[test]
fn sip_decision_accepts_complete_line() {
    let c = sip_config_decision(
        Some(true),
        Some("alice".into()),
        Some("secret".into()),
        Some("example.net".into()),
    )
    .unwrap();
    assert_eq!(c.user, "alice");
    assert_eq!(c.password, "secret");
    assert_eq!(c.domain, "example.net");
}

#[test]
fn register_request_hex_encodes_tag_bytes() {
    let tag_bytes = vec![0x12u8, 0x34, 0xab, 0xcd];
    let branch_bytes = vec![0xffu8, 0x00, 0x01, 0x02];
    let r = register_request(
        "alice".into(),
        "secret".into(),
        "example.net".into(),
        "203.0.113.9".into(),
        &tag_bytes,
        &branch_bytes,
    );
    assert_eq!(r.tag, "1234abcd");
    // The branch is derived from the same bytes as the tag.
    assert_eq!(r.branch, "1234abcd");
    assert_eq!(r.display_name, "KYP");
    assert_eq!(r.cseq, 1);
    assert_eq!(r.port, 50606);
    assert_eq!(r.user, "alice");
    assert_eq!(r.domain, "example.net");
}

#[test]
fn register_draws_eight_hex_digits() {
    let r = register("u".into(), "p".into(), "d".into(), "198.51.100.7".into());
    assert_eq!(r.tag.len(), 8);
    assert_eq!(r.tag, r.branch);
    assert!(r.tag.chars().all(|c| c.is_ascii_hexdigit() && !c.is_ascii_uppercase()));
}

#[test]
fn make_ap_records_channel_one() {
    let configs = make_ap_wpa2_psk(WifiModuleConfig::new(), "kyp".into(), "killyourphone".into());
    let ap = configs.ap_config.as_ref().unwrap();
    assert_eq!(ap.ssid, "kyp");
    assert_eq!(ap.password, "killyourphone");
    assert_eq!(ap.channel, 1);
    assert!(configs.client_configs.is_empty());
}

#[test]
fn connect_inserts_then_replaces_by_name() {
    let configs = connect_wpa2_psk(WifiModuleConfig::new(), "home".into(), "one".into());
    assert_eq!(configs.client_configs.len(), 1);
    let configs = connect_wpa2_psk(configs, "work".into(), "two".into());
    assert_eq!(configs.client_configs.len(), 2);
    // Re-adding a known network replaces its key, in place.
    let configs = connect_wpa2_psk(configs, "home".into(), "three".into());
    assert_eq!(configs.client_configs.len(), 2);
    assert_eq!(configs.client_configs[0].0, "home");
    assert_eq!(configs.client_configs[0].1.password, "three");
    assert_eq!(configs.client_configs[1].1.password, "two");
}

#[test]
fn scan_match_finds_first_known_network() {
    let configs = connect_wpa2_psk(WifiModuleConfig::new(), "home".into(), "one".into());
    let scan = vec![
        ScanAp { ssid: "stranger".into(), signal_strength: 80 },
        ScanAp { ssid: "home".into(), signal_strength: 55 },
        ScanAp { ssid: "home".into(), signal_strength: 12 },
    ];
    assert_eq!(next_client_match(&configs, &scan, 0), Some(1));
    assert_eq!(next_client_match(&configs, &scan, 2), Some(2));
    assert_eq!(next_client_match(&configs, &scan, 3), None);
    let empty = WifiModuleConfig::new();
    assert_eq!(next_client_match(&empty, &scan, 0), None);
}

#[test]
fn configuration_choice_mixes_in_access_point() {
    let configs = connect_wpa2_psk(WifiModuleConfig::new(), "home".into(), "one".into());
    let client = &configs.client_configs[0].1;
    assert!(matches!(
        choose_configuration(&configs, client),
        WifiConfigChoice::ClientOnly(_)
    ));
    let with_ap = make_ap_wpa2_psk(
        connect_wpa2_psk(WifiModuleConfig::new(), "home".into(), "one".into()),
        "kyp".into(),
        "key".into(),
    );
    let client = &with_ap.client_configs[0].1;
    match choose_configuration(&with_ap, client) {
        WifiConfigChoice::MixedWithAp(c, a) => {
            assert_eq!(c.ssid, "home");
            assert_eq!(a.ssid, "kyp");
        }
        _ => panic!("an access point must make the configuration mixed"),
    }
}

#[test]
fn access_point_status_reports_result() {
    let configs = make_ap_wpa2_psk(WifiModuleConfig::new(), "kyp".into(), "key".into());
    let ap = configs.ap_config.as_ref().unwrap();
    match access_point_status(ap, true) {
        Ok(WifiStatus::Ap(ApStatus::Enabled(name))) => assert_eq!(name, "kyp"),
        _ => panic!("a successful configuration must report the AP enabled"),
    }
    match access_point_status(ap, false) {
        Err(WifiError::Unknown(m)) => assert_eq!(m, "Failed to create AP"),
        _ => panic!("a failed configuration must report the radio error"),
    }
}

#[test]
fn client_attempt_status_needs_ap_and_success() {
    let with_ap = make_ap_wpa2_psk(
        connect_wpa2_psk(WifiModuleConfig::new(), "home".into(), "one".into()),
        "kyp".into(),
        "key".into(),
    );
    let matched = ScanAp { ssid: "home".into(), signal_strength: 42 };
    match client_attempt_status(&with_ap, &matched, true) {
        Some(WifiStatus::Client(ClientStatus::Connected(name, strength))) => {
            assert_eq!(name, "home");
            assert_eq!(strength, 42);
        }
        _ => panic!("success with an AP configured must report Connected"),
    }
    assert!(client_attempt_status(&with_ap, &matched, false).is_none());
    let no_ap = connect_wpa2_psk(WifiModuleConfig::new(), "home".into(), "one".into());
    assert!(client_attempt_status(&no_ap, &matched, true).is_none());
}

#[test]
fn dummy_radio_is_always_disabled() {
    let mut module = DummyWifiModule::new();
    assert!(matches!(module.get_status(), WifiStatus::Disabled));
    let mut interface: DummyWifiInterface = module.get_interface();
    assert!(interface.add_network_wpa2_psk("a".into(), "b".into()).is_ok());
    assert!(interface.set_ap_wpa2_psk("a".into(), "b".into()).is_ok());
}

#[test]
fn wifi_commands_update_the_store() {
    let configs = apply_wifi_command(
        WifiModuleConfig::new(),
        WifiCommand::ConnectWPA2PSK("home".into(), "one".into()),
    );
    assert_eq!(configs.client_configs.len(), 1);
    assert!(configs.ap_config.is_none());
    let configs = apply_wifi_command(
        configs,
        WifiCommand::CreateApWPA2PSK("kyp".into(), "key".into()),
    );
    assert_eq!(configs.ap_config.as_ref().unwrap().ssid, "kyp");
    assert_eq!(configs.client_configs.len(), 1);
}
