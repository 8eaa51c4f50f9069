use nl80211_rs::align::{netlink_align, netlink_padding};
use nl80211_rs::attribute::Attribute;
use nl80211_rs::attributes::InterfaceType;
use nl80211_rs::commands::Command as Nl80211Command;
use nl80211_rs::frame::{FrameControl, FrameSubtype, FrameType};
use nl80211_rs::generic::{Family, Message as GenericMessage, MultiCastGroup,
    find_family_in_messages};
use nl80211_rs::message::{DataMessage, Message, MessageMode, parse_data};
use nl80211_rs::regulatory::{RegulatoryChange, RegulatoryInitiator, RegulatoryRegion,
    RegulatoryRule};
use nl80211_rs::socket::{Protocol, Sendable, SocketState};
use nl80211_rs::wireless_interface::{WirelessDeviceId, WirelessInterface};
use nl80211_rs::{Error, Header, parse_attributes};

#[test]
fn alignment_rounds_up_to_four() {
    for n in 0usize..64 {
        let a = netlink_align(n);
        assert_eq!(a % 4, 0);
        assert!(a >= n);
        assert!(a - n < 4);
        assert_eq!(netlink_padding(n), a - n);
    }
    assert_eq!(netlink_align(0), 0);
    assert_eq!(netlink_align(1), 4);
    assert_eq!(netlink_align(4), 4);
    assert_eq!(netlink_align(5), 8);
}

#[test]
fn attribute_round_trip() {
    let attr = Attribute::new::<u32>(7, &0xdeadbeefu32);
    let mut out: Vec<u8> = Vec::new();
    attr.write(&mut out);
    assert_eq!(out, vec![8, 0, 7, 0, 0xef, 0xbe, 0xad, 0xde]);
    let (parsed, stride) = Attribute::parse(&out).unwrap();
    assert_eq!(parsed.identifier, 7);
    assert_eq!(parsed.as_u32().unwrap(), 0xdeadbeef);
    assert_eq!(stride, 8);
    assert_eq!(parsed.total_len(), 8);
    assert_eq!(parsed.len(), 4);
}

#[test]
fn attribute_parse_fails_cleanly_on_short_buffers() {
    // every buffer shorter than the attribute header
    for n in 0usize..4 {
        assert!(Attribute::parse(&vec![0u8; n]).is_err());
    }
    // declared length runs past the buffer
    assert!(Attribute::parse(&[6, 0, 1, 0, 0xff]).is_err());
    // declared length smaller than the header
    assert!(Attribute::parse(&[2, 0, 1, 0]).is_err());
}

#[test]
fn attribute_values_decode() {
    let attr = Attribute::new_string(2, "nl80211");
    assert_eq!(attr.as_string().unwrap(), "nl80211");
    assert_eq!(attr.as_bytes(), b"nl80211\0".to_vec());

    let attr = Attribute::new::<u16>(1, &0x1234u16);
    assert_eq!(attr.as_u16().unwrap(), 0x1234);
    assert!(attr.as_u32().is_err());

    let attr = Attribute::new::<i32>(9, &-5i32);
    assert_eq!(attr.as_i32().unwrap(), -5);
}

#[test]
fn attribute_stream_parses_and_skips_trailing_garbage() {
    let mut buffer: Vec<u8> = Vec::new();
    buffer.extend_from_slice(&[5, 0, 1, 0, 0xaa, 0, 0, 0]);  // one value octet, padded
    buffer.extend_from_slice(&[8, 0, 2, 0, 1, 2, 3, 4]);
    buffer.extend_from_slice(&[3, 0]);  // malformed remainder ends the walk
    let attrs = parse_attributes(&buffer);
    assert_eq!(attrs.len(), 2);
    assert_eq!(attrs[0].identifier, 1);
    assert_eq!(attrs[0].as_u8().unwrap(), 0xaa);
    assert_eq!(attrs[1].identifier, 2);
    assert_eq!(attrs[1].as_bytes(), vec![1, 2, 3, 4]);
}

fn push_header(out: &mut Vec<u8>, length: u32, kind: u16, flags: u16, sequence: u32, pid: u32) {
    out.extend_from_slice(&length.to_le_bytes());
    out.extend_from_slice(&kind.to_le_bytes());
    out.extend_from_slice(&flags.to_le_bytes());
    out.extend_from_slice(&sequence.to_le_bytes());
    out.extend_from_slice(&pid.to_le_bytes());
}

fn error_message(code: i32, sequence: u32, pid: u32) -> Vec<u8> {
    let mut out: Vec<u8> = Vec::new();
    push_header(&mut out, 36, 2, 0, sequence, pid);
    out.extend_from_slice(&code.to_le_bytes());
    push_header(&mut out, 20, 0x19, 5, sequence, pid);
    out
}

#[test]
fn header_parses_fields() {
    let buffer = error_message(0, 9, 42);
    let mut pos: usize = 0;
    let header = Header::parse(&buffer, &mut pos).unwrap();
    assert_eq!(pos, 16);
    assert_eq!(header.length, 36);
    assert_eq!(header.identifier, 2);
    assert_eq!(header.sequence, 9);
    assert_eq!(header.pid, 42);
    assert_eq!(header.data_length(), 20);
    assert_eq!(header.aligned_length(), 36);
    assert!(header.check_pid(42));
    assert!(!header.check_pid(43));
    assert!(header.check_sequence(9));
    assert!(!header.check_sequence(8));
}

#[test]
fn zero_code_error_surfaces_as_acknowledge() {
    let buffer = error_message(0, 9, 42);
    let (messages, more) = parse_data(&buffer, 42, 9, true).unwrap();
    assert_eq!(messages.len(), 1);
    assert!(matches!(messages[0], Message::Acknowledge));
    assert!(!more);
}

#[test]
fn nonzero_code_error_surfaces_as_os_error() {
    let buffer = error_message(-1, 9, 42);
    let err = parse_data(&buffer, 42, 9, true).unwrap_err();
    assert_eq!(err, Error::Kernel(libc::EPERM));
    assert_eq!(err.os_error_code(), Some(1));
}

#[test]
fn pid_and_sequence_mismatches_are_fatal() {
    let buffer = error_message(0, 9, 41);
    assert_eq!(parse_data(&buffer, 42, 9, true).unwrap_err(), Error::InvalidPid);
    let buffer = error_message(0, 8, 42);
    assert_eq!(parse_data(&buffer, 42, 9, true).unwrap_err(), Error::InvalidSequence);
    // pid zero marks a kernel origin and is exempt from both checks
    let buffer = error_message(0, 8, 0);
    assert!(parse_data(&buffer, 42, 9, true).is_ok());
}

#[test]
fn receive_batch_collects_data_and_done() {
    let mut buffer: Vec<u8> = Vec::new();
    // a data message carrying four payload octets, multipart
    push_header(&mut buffer, 20, 0x19, 2, 9, 42);
    buffer.extend_from_slice(&[1, 2, 3, 4]);
    // a DONE marker
    push_header(&mut buffer, 16, 3, 0, 9, 42);
    let (messages, more) = parse_data(&buffer, 42, 9, false).unwrap();
    assert_eq!(messages.len(), 2);
    assert!(matches!(messages[0], Message::Data(ref d) if d.data == vec![1, 2, 3, 4]));
    assert!(matches!(messages[1], Message::Done));
    assert!(more);
}

#[test]
fn truncated_batch_fails() {
    let mut buffer: Vec<u8> = Vec::new();
    push_header(&mut buffer, 24, 0x19, 0, 9, 42);
    buffer.extend_from_slice(&[1, 2]);  // six octets short
    assert_eq!(parse_data(&buffer, 42, 9, false).unwrap_err(), Error::Truncated);
}

#[test]
fn socket_state_frames_requests() {
    let mut state = SocketState::new(42);
    assert_eq!(state.sequence_next, 1);
    let mut message = GenericMessage::new(0x19, 3, MessageMode::Acknowledge);
    message.append_attribute(Attribute::new_string(2, "nl80211"));
    let bytes = state.build_request(&message).unwrap();
    assert_eq!(state.sequence_expected, 1);
    assert_eq!(state.sequence_next, 2);
    assert!(state.acknowledge_expected);

    let mut pos: usize = 0;
    let header = Header::parse(&bytes, &mut pos).unwrap();
    assert_eq!(header.length as usize, bytes.len());
    assert_eq!(header.identifier, 0x19);
    assert_eq!(header.flags, 5);
    assert_eq!(header.sequence, 1);
    assert_eq!(header.pid, 42);
    // generic header: command, version, reserved word
    assert_eq!(&bytes[16..20], &[3, 1, 0, 0]);
    // the attribute: length 12, type 2, the name, a NUL, no padding needed
    assert_eq!(&bytes[20..24], &[12, 0, 2, 0]);
    assert_eq!(&bytes[24..32], b"nl80211\0");
}

#[test]
fn protocol_numbers_match_kernel_table() {
    assert_eq!(Protocol::Route.to_wire(), 0);
    assert_eq!(Protocol::KObjectUevent.to_wire(), 15);
    assert_eq!(Protocol::Generic.to_wire(), 16);
    assert_eq!(Protocol::Crypto.to_wire(), 20);
}

fn pad4(out: &mut Vec<u8>) {
    while out.len() % 4 != 0 {
        out.push(0);
    }
}

fn family_payload() -> Vec<u8> {
    let mut message = GenericMessage::new(16, 1, MessageMode::Plain);
    message.append_attribute(Attribute::new_string(2, "nl80211"));
    message.append_attribute(Attribute::new::<u16>(1, &0x19u16));
    let mut group: Vec<u8> = Vec::new();
    Attribute::new_string(1, "scan").write(&mut group);
    pad4(&mut group);
    Attribute::new::<u32>(2, &5u32).write(&mut group);
    let mut groups: Vec<u8> = Vec::new();
    Attribute { identifier: 1, data: group }.write(&mut groups);
    pad4(&mut groups);
    message.append_attribute(Attribute { identifier: 7, data: groups });
    let mut payload: Vec<u8> = Vec::new();
    message.write(&mut payload).unwrap();
    payload
}

#[test]
fn family_resolves_from_controller_message() {
    let parsed = GenericMessage::parse(&family_payload()).unwrap();
    assert_eq!(parsed.command, 1);
    let family = Family::from_message(&parsed).unwrap();
    assert_eq!(family.id, 0x19);
    assert_eq!(family.name, "nl80211");
    assert_eq!(family.multicast_groups.len(), 1);
    assert_eq!(family.multicast_groups[0].id, 5);
    assert_eq!(family.multicast_groups[0].name, "scan");
}

#[test]
fn family_search_scans_a_batch() {
    let payload = family_payload();
    let mut buffer: Vec<u8> = Vec::new();
    push_header(&mut buffer, 16 + payload.len() as u32, 16, 0, 1, 42);
    buffer.extend_from_slice(&payload);
    let (messages, _) = parse_data(&buffer, 42, 1, false).unwrap();
    let family = find_family_in_messages(&messages, "nl80211").unwrap().unwrap();
    assert_eq!(family.id, 0x19);
    assert!(find_family_in_messages(&messages, "other").unwrap().is_none());
}

#[test]
fn multicast_group_requires_an_id() {
    let mut group: Vec<u8> = Vec::new();
    Attribute::new_string(1, "scan").write(&mut group);
    assert_eq!(MultiCastGroup::from_bytes(&group).unwrap_err(), Error::NotFound);
}

#[test]
fn frame_control_tables() {
    // bit pattern 0b1000 under the management type decodes to Beacon
    let control = FrameControl::from_wire(0x0080);
    assert_eq!(control.get_type(), FrameType::Management);
    assert_eq!(control.get_subtype(), FrameSubtype::Beacon);

    // bit pattern 0b0000 under the data type decodes to plain Data
    let control = FrameControl::from_wire(0x0008);
    assert_eq!(control.get_type(), FrameType::Data);
    assert_eq!(control.get_subtype(), FrameSubtype::Data);

    // an unmapped subtype pattern decodes to Reserved
    let control = FrameControl::from_wire(0x0070);
    assert_eq!(control.get_type(), FrameType::Management);
    assert_eq!(control.get_subtype(), FrameSubtype::Reserved);

    // single-bit flags
    let control = FrameControl::from_wire(0x8100);
    assert!(control.get_to_ds());
    assert!(!control.get_from_ds());
    assert!(control.get_order());
}

#[test]
fn management_frame_unpacks_addresses() {
    let mut buffer: Vec<u8> = Vec::new();
    buffer.extend_from_slice(&[0x80, 0x00]);  // beacon
    buffer.extend_from_slice(&[0x12, 0x00]);  // duration
    buffer.extend_from_slice(&[0xff; 6]);  // receiver
    buffer.extend_from_slice(&[1, 2, 3, 4, 5, 6]);  // transmitter
    buffer.extend_from_slice(&[1, 2, 3, 4, 5, 6]);  // bssid
    buffer.extend_from_slice(&[0x30, 0x01]);  // sequence
    buffer.push(0);  // body beyond the fixed header
    let frame = nl80211_rs::Frame::unpack(&buffer).unwrap();
    match frame {
        nl80211_rs::Frame::Management(m) => {
            assert_eq!(m.control.get_subtype(), FrameSubtype::Beacon);
            assert_eq!(m.duration.field, 0x12);
            assert_eq!(m.address1.bytes(), [0xff; 6]);
            assert_eq!(m.address2.bytes(), [1, 2, 3, 4, 5, 6]);
            assert_eq!(m.sequence.field, 0x0130);
            assert!(m.high_throughput_control.is_none());
        },
        _ => panic!("not a management frame"),
    }
    // one octet short of the fixed management header
    assert!(nl80211_rs::Frame::unpack(&buffer[..24]).is_err());
}

#[test]
fn interface_information_message_parses() {
    let mut buffer: Vec<u8> = Vec::new();
    buffer.push(17);  // family
    buffer.push(0);  // pad
    buffer.extend_from_slice(&1u16.to_le_bytes());  // kind
    buffer.extend_from_slice(&(-3i32).to_le_bytes());  // index
    buffer.extend_from_slice(&0x11u32.to_le_bytes());  // flags
    buffer.extend_from_slice(&0u32.to_le_bytes());  // change
    buffer.extend_from_slice(&[8, 0, 5, 0, 1, 2, 3, 4]);  // one attribute
    let message = nl80211_rs::route::InterfaceInformationMessage::parse(&buffer).unwrap();
    assert_eq!(message.family, 17);
    assert_eq!(message.kind, 1);
    assert_eq!(message.index, -3);
    assert_eq!(message.flags, 0x11);
    assert_eq!(message.attributes.len(), 1);
    assert_eq!(message.attributes[0].identifier, 5);
    assert!(nl80211_rs::route::InterfaceInformationMessage::parse(&buffer[..15]).is_err());
}

#[test]
fn regulatory_rules_decode_from_nested_entries() {
    let mut rule: Vec<u8> = Vec::new();
    Attribute::new::<u32>(2, &2402000u32).write(&mut rule);  // range start
    Attribute::new::<u32>(3, &2482000u32).write(&mut rule);  // range end
    Attribute::new::<u32>(1, &0x0001u32).write(&mut rule);  // flags
    let mut rules: Vec<u8> = Vec::new();
    Attribute { identifier: 1, data: rule }.write(&mut rules);
    let decoded = RegulatoryRule::from_nested_attribute_array(&rules);
    assert_eq!(decoded.len(), 1);
    assert_eq!(decoded[0].start, 2402000);
    assert_eq!(decoded[0].end, 2482000);
    assert_eq!(decoded[0].flags, 1);
}

#[test]
fn regulatory_change_decodes() {
    let mut message = GenericMessage::new(0x19, 36, MessageMode::Plain);
    message.append_attribute(Attribute::new_string(33, "DE"));
    message.append_attribute(Attribute::new::<u8>(48, &1u8));  // initiator: user
    message.append_attribute(Attribute::new::<u8>(49, &0u8));  // kind: world
    let change = RegulatoryChange::from_message(&message).unwrap();
    assert_eq!(change.country, Some(String::from("DE")));
    assert_eq!(change.initiator, RegulatoryInitiator::User);
    assert_eq!(change.region, RegulatoryRegion::World);
}

fn interface_message() -> GenericMessage {
    let mut message = GenericMessage::new(0x19, 7, MessageMode::Plain);
    message.append_attribute(Attribute::new::<u32>(1, &0u32));  // phy id
    message.append_attribute(Attribute::new::<u32>(3, &4u32));  // interface index
    message.append_attribute(Attribute::new_string(4, "wlan0"));
    message.append_attribute(Attribute::new::<nl80211_rs::HardwareAddress>(
        6,
        &nl80211_rs::HardwareAddress::from_bytes([1, 2, 3, 4, 5, 6]),
    ));
    message.append_attribute(Attribute::new::<u32>(5, &2u32));  // station
    message
}

fn empty_family() -> Family {
    Family { id: 0x19, name: String::from("nl80211"), multicast_groups: Vec::new() }
}

#[test]
fn wireless_interface_decodes_and_addresses_requests() {
    let interface = WirelessInterface::from_message(&interface_message(), empty_family()).unwrap();
    assert_eq!(interface.phy_id, 0);
    assert_eq!(interface.interface_name, "wlan0");
    assert_eq!(interface.interface_index, 4);
    assert_eq!(interface.mac.bytes(), [1, 2, 3, 4, 5, 6]);
    assert_eq!(interface.interface_type, InterfaceType::Station);
    assert_eq!(interface.wireless_device_id, WirelessDeviceId::InterfaceIndex(4));

    let request = interface
        .prepare_message(Nl80211Command::TriggerScan, MessageMode::Acknowledge)
        .unwrap();
    assert_eq!(request.command, 33);
    assert_eq!(request.family, 0x19);
    assert_eq!(request.attributes.len(), 1);
    assert_eq!(request.attributes[0].identifier, 3);
    assert_eq!(request.attributes[0].as_u32().unwrap(), 4);
}

#[test]
fn wireless_interface_requires_its_fields() {
    let mut message = GenericMessage::new(0x19, 7, MessageMode::Plain);
    message.append_attribute(Attribute::new::<u32>(1, &0u32));
    let r = WirelessInterface::from_message(&message, empty_family());
    assert_eq!(r.unwrap_err(), Error::NotFound);
}

#[test]
fn wireless_phys_group_across_messages() {
    let mut first = GenericMessage::new(0x19, 3, MessageMode::Plain);
    first.append_attribute(Attribute::new::<u32>(1, &0u32));
    first.append_attribute(Attribute::new_string(2, "phy0"));
    let mut commands: Vec<u8> = Vec::new();
    Attribute::new::<u32>(1, &33u32).write(&mut commands);
    let mut second = GenericMessage::new(0x19, 3, MessageMode::Plain);
    second.append_attribute(Attribute::new::<u32>(1, &0u32));
    second.append_attribute(Attribute { identifier: 50, data: commands });
    let mut third = GenericMessage::new(0x19, 3, MessageMode::Plain);
    third.append_attribute(Attribute::new::<u32>(1, &1u32));
    third.append_attribute(Attribute::new_string(2, "phy1"));

    let mut buffer: Vec<u8> = Vec::new();
    for message in [&first, &second, &third] {
        let mut payload: Vec<u8> = Vec::new();
        message.write(&mut payload).unwrap();
        push_header(&mut buffer, 16 + payload.len() as u32, 0x19, 2, 1, 7);
        buffer.extend_from_slice(&payload);
    }
    let (messages, _) = parse_data(&buffer, 7, 1, false).unwrap();
    let phys = nl80211_rs::phys_from_messages(&messages, 0x19).unwrap();
    assert_eq!(phys.len(), 2);
    assert_eq!(phys[0].identifier, 0);
    assert_eq!(phys[0].name, "phy0");
    assert_eq!(phys[0].commands, vec![Nl80211Command::TriggerScan]);
    assert_eq!(phys[1].identifier, 1);
    assert_eq!(phys[1].name, "phy1");
}

#[test]
fn data_message_reads_declared_payload() {
    let mut buffer: Vec<u8> = Vec::new();
    push_header(&mut buffer, 20, 0x19, 0, 1, 7);
    buffer.extend_from_slice(&[9, 8, 7, 6]);
    let mut pos: usize = 0;
    let header = Header::parse(&buffer, &mut pos).unwrap();
    let message = DataMessage::parse(&buffer, &mut pos, header).unwrap();
    assert_eq!(message.data, vec![9, 8, 7, 6]);
    assert_eq!(pos, 20);
}
