use nl80211_rs::information_element::{AuthenticationKeyManagement, ChannelSwitchAnnouncement,
    ChannelSwitchMode, CipherSuite, Country, ExtendedChannelSwitchAnnouncement,
    HighThroughputOperation, InformationElement, InformationElements, MaxVhtMcs,
    ProtectedManagementFramesMode, RawInformationElement, RobustSecurityNetwork, Ssid,
    VeryHighThroughputOperation};
use nl80211_rs::InformationElementId;

#[test]
fn test_parse_ie() {
    let bytes = [48, 6, 0x01, 0x02, 0x03, 0x04, 0x05, 0x06];
    let ie = RawInformationElement::parse(&bytes).unwrap();
    assert_eq!(ie.identifier, 48u8);
    assert_eq!(ie.data.len(), 6);
    assert_eq!(ie.data, &bytes[2..]);
}

#[test]
fn test_parse_ies() {
    let bytes = [
        48, 6, 0x01, 0x02, 0x03, 0x04, 0x05, 0x06, 4, 0, 1, 2, 0x55, 0xaa,
    ];
    let ies = InformationElements::parse(&bytes);
    assert_eq!(ies.elements.len(), 3);
}

#[test]
fn raw_element_truncated_payload_fails() {
    // one octet short of the declared payload
    assert!(RawInformationElement::parse(&[48, 6, 1, 2, 3, 4, 5]).is_err());
    assert!(RawInformationElement::parse(&[48]).is_err());
    assert!(RawInformationElement::parse(&[]).is_err());
}

#[test]
fn ssid_decodes_utf8_and_latin1() {
    let ie = Ssid::parse(b"eduroam").unwrap();
    assert_eq!(ie.ssid, "eduroam");

    // trailing NUL padding is trimmed
    let ie = Ssid::parse(&[0x61, 0x62, 0x00, 0x00]).unwrap();
    assert_eq!(ie.ssid, "ab");

    // not UTF-8, so each octet reads as its ISO-8859-1 code point
    let ie = Ssid::parse(&[0x63, 0x61, 0x66, 0xe9]).unwrap();
    assert_eq!(ie.ssid, "caf\u{e9}");
}

#[test]
fn country_parses_alpha2() {
    let ie = Country::parse(&[0x44, 0x45, 0x20, 0x01, 0x0d, 0x14]).unwrap();
    assert_eq!(ie.alpha2, "DE");
    // one octet short of the minimum length
    assert!(Country::parse(&[0x44, 0x45, 0x20, 0x01, 0x0d]).is_err());
}

#[test]
fn channel_switch_announcement_parses() {
    let ie = ChannelSwitchAnnouncement::parse(&[1, 40, 5, 0]).unwrap();
    assert_eq!(ie.switch_mode, ChannelSwitchMode::NoTransmission);
    assert_eq!(ie.new_channel, 40);
    assert_eq!(ie.switch_count, 5);
    assert!(ChannelSwitchAnnouncement::parse(&[1, 40, 5]).is_err());
    assert!(ChannelSwitchAnnouncement::parse(&[1, 40, 5, 0, 0]).is_err());
}

#[test]
fn extended_channel_switch_announcement_parses() {
    let ie = ExtendedChannelSwitchAnnouncement::parse(&[0, 81, 40, 5]).unwrap();
    assert_eq!(ie.switch_mode, ChannelSwitchMode::NoRestriction);
    assert_eq!(ie.new_operating_class, 81);
    assert_eq!(ie.new_channel, 40);
    assert_eq!(ie.switch_count, 5);
    assert!(ExtendedChannelSwitchAnnouncement::parse(&[0, 81, 40]).is_err());
}

#[test]
fn high_throughput_operation_parses() {
    let mut payload = [0u8; 22];
    payload[0] = 36;
    payload[1] = 0x05;  // secondary above, 40 MHz
    let ie = HighThroughputOperation::parse(&payload).unwrap();
    assert_eq!(ie.primary_channel, 36);
    assert_eq!(ie.secondary_channel, 37);
    assert_eq!(ie.width, 40);

    payload[1] = 0x03;  // secondary below, 20 MHz
    let ie = HighThroughputOperation::parse(&payload).unwrap();
    assert_eq!(ie.secondary_channel, 35);
    assert_eq!(ie.width, 20);

    // one octet short of the required length
    assert!(HighThroughputOperation::parse(&payload[..21]).is_err());
}

#[test]
fn very_high_throughput_operation_parses() {
    // width class 0 reads as 40 MHz
    let ie = VeryHighThroughputOperation::parse(&[0x00, 0x24, 0x01, 0x00, 0x00]).unwrap();
    assert_eq!(ie.width, 40);
    assert_eq!(ie.channel, 0x24);
    assert_eq!(ie.secondary_channel, 0x01);
    assert_eq!(ie.max_vht_mcs_ss, [MaxVhtMcs::VhtMcs0to7; 8]);

    let ie = VeryHighThroughputOperation::parse(&[0x01, 42, 0, 0xe4, 0xff]).unwrap();
    assert_eq!(ie.width, 80);
    assert_eq!(
        ie.max_vht_mcs_ss,
        [
            MaxVhtMcs::VhtMcs0to7,
            MaxVhtMcs::VhtMcs0to8,
            MaxVhtMcs::VhtMcs0to9,
            MaxVhtMcs::NotSupported,
            MaxVhtMcs::NotSupported,
            MaxVhtMcs::NotSupported,
            MaxVhtMcs::NotSupported,
            MaxVhtMcs::NotSupported,
        ]
    );

    // one octet short of the required length
    assert!(VeryHighThroughputOperation::parse(&[0x00, 0x24, 0x01, 0x00]).is_err());
}

fn rsn_payload(capabilities: u16) -> Vec<u8> {
    let mut data: Vec<u8> = Vec::new();
    data.extend_from_slice(&[0x01, 0x00]);  // version 1
    data.extend_from_slice(&[0x00, 0x0f, 0xac, 0x04]);  // group cipher CCMP
    data.extend_from_slice(&[0x02, 0x00]);  // two pairwise ciphers
    data.extend_from_slice(&[0x00, 0x0f, 0xac, 0x04]);  // CCMP
    data.extend_from_slice(&[0x00, 0x0f, 0xac, 0x02]);  // TKIP
    data.extend_from_slice(&[0x01, 0x00]);  // one AKM
    data.extend_from_slice(&[0x00, 0x0f, 0xac, 0x02]);  // PSK
    data.extend_from_slice(&capabilities.to_le_bytes());
    data
}

#[test]
fn rsn_parses_suites_and_counters() {
    // replay-counter subfields: PTKSA 10 -> 4, GTKSA 11 -> 16
    let ie = RobustSecurityNetwork::parse(&rsn_payload(0x0038)).unwrap();
    assert_eq!(ie.version, 1);
    assert_eq!(ie.cipher_suite, CipherSuite::CounterModeCbcMacProtocol);
    assert_eq!(
        ie.ciphers,
        vec![
            CipherSuite::CounterModeCbcMacProtocol,
            CipherSuite::TemporalKeyIntegrityProtocol,
        ]
    );
    assert_eq!(ie.akms, vec![AuthenticationKeyManagement::PreSharedKey]);
    assert_eq!(ie.ptksa_counters, 4);
    assert_eq!(ie.gtksa_counters, 16);
}

#[test]
fn rsn_rejects_short_payloads() {
    let data = rsn_payload(0);
    // the minimum-length gate
    assert!(RobustSecurityNetwork::parse(&data[..8]).is_err());
    // one octet short of the capabilities word
    assert!(RobustSecurityNetwork::parse(&data[..data.len() - 1]).is_err());
}

#[test]
fn pmf_required_dominates_capable() {
    let ie = RobustSecurityNetwork::parse(&rsn_payload(0x00c0)).unwrap();
    assert_eq!(ie.pmf_mode(), ProtectedManagementFramesMode::Required);

    let ie = RobustSecurityNetwork::parse(&rsn_payload(0x0080)).unwrap();
    assert_eq!(ie.pmf_mode(), ProtectedManagementFramesMode::Capable);

    let ie = RobustSecurityNetwork::parse(&rsn_payload(0x0000)).unwrap();
    assert_eq!(ie.pmf_mode(), ProtectedManagementFramesMode::Disabled);
}

#[test]
fn cipher_suite_round_trip() {
    let suites = [
        CipherSuite::UseGroupCipherSuite,
        CipherSuite::WiredEquivalentPrivacy40,
        CipherSuite::TemporalKeyIntegrityProtocol,
        CipherSuite::CounterModeCbcMacProtocol,
        CipherSuite::WiredEquivalentPrivacy104,
        CipherSuite::BroadcastIntegrityProtocol,
        CipherSuite::GroupAddressedTrafficNotAllowed,
        CipherSuite::Reserved(3),
        CipherSuite::Reserved(0xfe),
        CipherSuite::Vendor(0x11223344),
    ];
    for suite in suites {
        assert_eq!(CipherSuite::from_wire(suite.to_wire()), suite);
    }
    assert_eq!(
        CipherSuite::from_wire(0x04ac0f00),
        CipherSuite::CounterModeCbcMacProtocol
    );
}

#[test]
fn akm_round_trip() {
    let suites = [
        AuthenticationKeyManagement::PairwiseMasterKeySecurityAssociation,
        AuthenticationKeyManagement::PreSharedKey,
        AuthenticationKeyManagement::FastTransitionPMKSA,
        AuthenticationKeyManagement::FastTransitionPreSharedKey,
        AuthenticationKeyManagement::PMKSASha256,
        AuthenticationKeyManagement::PreSharedKeySha256,
        AuthenticationKeyManagement::TunneledDirectLinkSetup,
        AuthenticationKeyManagement::SimultaneousAuthenticationOfEquals,
        AuthenticationKeyManagement::FastTransitionSAE,
        AuthenticationKeyManagement::Reserved(0x20),
        AuthenticationKeyManagement::Vendor(0x50f25000),
    ];
    for suite in suites {
        assert_eq!(AuthenticationKeyManagement::from_wire(suite.to_wire()), suite);
    }
}

#[test]
fn typed_dispatch_interprets_known_elements() {
    // SSID element
    let ie = InformationElement::parse(&[0, 4, 0x74, 0x65, 0x73, 0x74]).unwrap();
    assert_eq!(ie.identifier(), Some(InformationElementId::Ssid));
    assert!(matches!(ie, InformationElement::Ssid(ref s) if s.ssid == "test"));

    // unknown identifier stays raw
    let ie = InformationElement::parse(&[221, 2, 0x55, 0xaa]).unwrap();
    assert!(matches!(ie, InformationElement::Other(ref raw) if raw.identifier == 221));
    assert_eq!(ie.identifier(), None);
}

#[test]
fn parse_all_aborts_on_malformed_known_element() {
    // a CSA element with a three-octet payload is malformed
    let bytes = [37, 3, 1, 40, 5];
    assert!(InformationElement::parse_all(&bytes).is_err());

    // the same payload under an unknown identifier is kept raw
    let bytes = [200, 3, 1, 40, 5];
    let ies = InformationElement::parse_all(&bytes).unwrap();
    assert_eq!(ies.len(), 1);
}
