//! Wireless interface records and the requests addressed to them.

use vstd::prelude::*;
use crate::attribute::{Attribute, attr_models, spec_parse_attrs};
use crate::attributes::InterfaceType;
use crate::codec::{le_unpack, le_pack};
use crate::commands::Command;
use crate::error::Error;
use crate::generic::{Family, Message, family_model};
use crate::hardware_address::HardwareAddress;
use crate::message::{MessageModel, MessageMode};
use crate::strings::spec_read_string;

verus! {

/// How a device is addressed in requests: by interface index, by
/// wireless device identifier, or not at all.
#[derive(Clone, Copy, Debug, PartialEq, Eq, Structural)]
pub enum WirelessDeviceId {
    Unidentified,
    InterfaceIndex(u32),
    DeviceIdentifier(u64),
}

/// A parsed wireless interface record.
#[derive(Debug)]
pub struct WirelessInterface {
    pub family: Family,
    pub phy_id: u32,
    pub interface_name: String,
    pub interface_index: u32,
    pub device_id: Option<u64>,
    pub mac: HardwareAddress,
    pub interface_type: InterfaceType,
    pub tx_power_level: u32,
    pub ssid: Option<String>,
    pub channel_width: Option<u32>,
    pub wireless_device_id: WirelessDeviceId,
}

/// The fields gathered while walking an interface message.
#[verifier::ext_equal]
pub struct InterfaceScan {
    pub phy_id: Option<u32>,
    pub interface_name: Option<Seq<char>>,
    pub interface_index: Option<u32>,
    pub device_id: Option<u64>,
    pub mac: Option<Seq<u8>>,
    pub interface_type: InterfaceType,
    pub tx_power_level: u32,
    pub ssid: Option<Seq<char>>,
    pub channel_width: Option<u32>,
}

/// The scan state before any attribute is read.
pub open spec fn interface_scan_init() -> InterfaceScan {
    InterfaceScan {
        phy_id: None,
        interface_name: None,
        interface_index: None,
        device_id: None,
        mac: None,
        interface_type: InterfaceType::Unspecified,
        tx_power_level: 0,
        ssid: None,
        channel_width: None,
    }
}

/// Walk an interface message's attributes, keeping the last value
/// seen for each field. Short payloads of the required fields fail
/// the record; the interface type and transmit power fall back to
/// their defaults instead.
pub open spec fn interface_scan(attrs: Seq<(int, Seq<u8>)>, st: InterfaceScan) -> Result<
    InterfaceScan,
    Error,
>
    decreases attrs.len(),
{
    if attrs.len() == 0 {
        Ok(st)
    } else {
        let a = attrs[0];
        let rest = attrs.drop_first();
        if a.0 == 1 {
            if a.1.len() >= 4 {
                interface_scan(
                    rest,
                    InterfaceScan { phy_id: Some(le_unpack(a.1.take(4)) as u32), ..st },
                )
            } else {
                Err(Error::Truncated)
            }
        } else if a.0 == 3 {
            if a.1.len() >= 4 {
                interface_scan(
                    rest,
                    InterfaceScan { interface_index: Some(le_unpack(a.1.take(4)) as u32), ..st },
                )
            } else {
                Err(Error::Truncated)
            }
        } else if a.0 == 153 {
            if a.1.len() >= 8 {
                interface_scan(
                    rest,
                    InterfaceScan { device_id: Some(le_unpack(a.1.take(8)) as u64), ..st },
                )
            } else {
                Err(Error::Truncated)
            }
        } else if a.0 == 4 {
            match spec_read_string(a.1) {
                Some(s) => interface_scan(rest, InterfaceScan { interface_name: Some(s), ..st }),
                None => Err(Error::Utf8),
            }
        } else if a.0 == 6 {
            if a.1.len() >= 6 {
                interface_scan(rest, InterfaceScan { mac: Some(a.1.take(6)), ..st })
            } else {
                Err(Error::Truncated)
            }
        } else if a.0 == 5 {
            let v = if a.1.len() >= 4 {
                le_unpack(a.1.take(4)) as u32
            } else {
                0
            };
            interface_scan(
                rest,
                InterfaceScan { interface_type: InterfaceType::spec_from_wire(v), ..st },
            )
        } else if a.0 == 98 {
            let v = if a.1.len() >= 4 {
                le_unpack(a.1.take(4)) as u32
            } else {
                0
            };
            interface_scan(rest, InterfaceScan { tx_power_level: v, ..st })
        } else if a.0 == 52 {
            match spec_read_string(a.1) {
                Some(s) => interface_scan(rest, InterfaceScan { ssid: Some(s), ..st }),
                None => Err(Error::Utf8),
            }
        } else if a.0 == 159 {
            if a.1.len() >= 4 {
                interface_scan(
                    rest,
                    InterfaceScan { channel_width: Some(le_unpack(a.1.take(4)) as u32), ..st },
                )
            } else {
                Err(Error::Truncated)
            }
        } else if a.0 == 39 {
            if a.1.len() >= 4 {
                let ct = le_unpack(a.1.take(4)) as u32;
                let cw: u32 = if ct == 0 || ct == 1 {
                    20
                } else if ct == 2 || ct == 3 {
                    40
                } else {
                    0
                };
                if st.channel_width is Some {
                    interface_scan(rest, InterfaceScan { channel_width: Some(cw), ..st })
                } else {
                    interface_scan(rest, st)
                }
            } else {
                Err(Error::Truncated)
            }
        } else {
            interface_scan(rest, st)
        }
    }
}

/// The device address a finished scan yields: a device identifier
/// when one was seen, else the interface index, else nothing.
pub open spec fn spec_device_id(st: InterfaceScan) -> WirelessDeviceId {
    match st.device_id {
        Some(d) => WirelessDeviceId::DeviceIdentifier(d),
        None => match st.interface_index {
            Some(i) => WirelessDeviceId::InterfaceIndex(i),
            None => WirelessDeviceId::Unidentified,
        },
    }
}

/// The model of an optional decoded text field.
pub open spec fn opt_text(c: Option<String>) -> Option<Seq<char>> {
    match c {
        Some(s) => Some(s@),
        None => None,
    }
}

/// Whether a finished scan holds every required field: phy id, name,
/// index and hardware address.
pub open spec fn interface_complete(st: InterfaceScan) -> bool {
    st.phy_id is Some && st.interface_name is Some && st.interface_index is Some && st.mac is Some
}

/// Whether a record matches a finished scan and a family.
pub open spec fn interface_matches(w: WirelessInterface, st: InterfaceScan, fam: Family) -> bool {
    &&& family_model(w.family) == family_model(fam)
    &&& Some(w.phy_id) == st.phy_id
    &&& Some(w.interface_name@) == st.interface_name
    &&& Some(w.interface_index) == st.interface_index
    &&& w.device_id == st.device_id
    &&& Some(w.mac@) == st.mac
    &&& w.interface_type == st.interface_type
    &&& w.tx_power_level == st.tx_power_level
    &&& opt_text(w.ssid) == st.ssid
    &&& w.channel_width == st.channel_width
    &&& w.wireless_device_id == spec_device_id(st)
}

impl WirelessInterface {
    /// Build an interface record from a parsed nl80211 message. The
    /// phy id, name, index and hardware address must all be present,
    /// or the record is reported not found.
    #[verifier::loop_isolation(false)]
    pub fn from_message(message: &Message, family: Family) -> (r: Result<WirelessInterface, Error>)
        ensures
            (match interface_scan(attr_models(message.attributes@), interface_scan_init()) {
                Ok(st) => if interface_complete(st) {
                    r matches Ok(w) && interface_matches(w, st, family)
                } else {
                    r == Err::<WirelessInterface, Error>(Error::NotFound)
                },
                Err(e) => r == Err::<WirelessInterface, Error>(e),
            }),
    {
        let ghost models = attr_models(message.attributes@);
        let mut phy_id: Option<u32> = None;
        let mut interface_name: Option<String> = None;
        let mut interface_index: Option<u32> = None;
        let mut device_id: Option<u64> = None;
        let mut mac: Option<HardwareAddress> = None;
        let mut interface_type: InterfaceType = InterfaceType::Unspecified;
        let mut tx_power_level: u32 = 0;
        let mut ssid: Option<String> = None;
        let mut channel_width: Option<u32> = None;
        let ghost init = interface_scan_init();
        let mut i: usize = 0;
        proof {
            assert(models.skip(0) =~= models);
        }
        while i < message.attributes.len()
            invariant
                i <= message.attributes@.len(),
                interface_scan(models, init) == interface_scan(
                    models.skip(i as int),
                    InterfaceScan {
                        phy_id: phy_id,
                        interface_name: opt_text(interface_name),
                        interface_index: interface_index,
                        device_id: device_id,
                        mac: (match mac {
                            Some(m) => Some(m@),
                            None => None,
                        }),
                        interface_type: interface_type,
                        tx_power_level: tx_power_level,
                        ssid: opt_text(ssid),
                        channel_width: channel_width,
                    },
                ),
            decreases message.attributes@.len() - i,
        {
            let a = &message.attributes[i];
            proof {
                assert(models[i as int] == (a.identifier as int, a.data@));
                assert(models.skip(i as int).drop_first() =~= models.skip(i + 1));
                assert(models.skip(i as int)[0] == models[i as int]);
            }
            if a.identifier == 1 {
                match a.as_u32() {
                    Ok(v) => {
                        phy_id = Some(v);
                    },
                    Err(e) => {
                        return Err(e);
                    },
                }
            } else if a.identifier == 3 {
                match a.as_u32() {
                    Ok(v) => {
                        interface_index = Some(v);
                    },
                    Err(e) => {
                        return Err(e);
                    },
                }
            } else if a.identifier == 153 {
                match a.as_u64() {
                    Ok(v) => {
                        device_id = Some(v);
                    },
                    Err(e) => {
                        return Err(e);
                    },
                }
            } else if a.identifier == 4 {
                match a.as_string() {
                    Ok(s) => {
                        interface_name = Some(s);
                    },
                    Err(e) => {
                        return Err(e);
                    },
                }
            } else if a.identifier == 6 {
                match a.as_hardware_address() {
                    Ok(v) => {
                        mac = Some(v);
                    },
                    Err(e) => {
                        return Err(e);
                    },
                }
            } else if a.identifier == 5 {
                let v = match a.as_u32() {
                    Ok(v) => v,
                    Err(_) => 0,
                };
                interface_type = InterfaceType::from_wire(v);
            } else if a.identifier == 98 {
                tx_power_level = match a.as_u32() {
                    Ok(v) => v,
                    Err(_) => 0,
                };
            } else if a.identifier == 52 {
                match a.as_string() {
                    Ok(s) => {
                        ssid = Some(s);
                    },
                    Err(e) => {
                        return Err(e);
                    },
                }
            } else if a.identifier == 159 {
                match a.as_u32() {
                    Ok(v) => {
                        channel_width = Some(v);
                    },
                    Err(e) => {
                        return Err(e);
                    },
                }
            } else if a.identifier == 39 {
                match a.as_u32() {
                    Ok(ct) => {
                        let cw: u32 = if ct == 0 || ct == 1 {
                            20
                        } else if ct == 2 || ct == 3 {
                            40
                        } else {
                            0
                        };
                        if channel_width.is_some() {
                            channel_width = Some(cw);
                        }
                    },
                    Err(e) => {
                        return Err(e);
                    },
                }
            }
            i = i + 1;
        }
        proof {
            assert(models.skip(models.len() as int) =~= Seq::<(int, Seq<u8>)>::empty());
        }
        let wireless_device_id: WirelessDeviceId = match device_id {
            Some(d) => WirelessDeviceId::DeviceIdentifier(d),
            None => match interface_index {
                Some(ix) => WirelessDeviceId::InterfaceIndex(ix),
                None => WirelessDeviceId::Unidentified,
            },
        };
        match (phy_id, interface_name, interface_index, mac) {
            (Some(phy), Some(name), Some(index), Some(address)) => Ok(
                WirelessInterface {
                    family,
                    phy_id: phy,
                    interface_name: name,
                    interface_index: index,
                    device_id,
                    mac: address,
                    interface_type,
                    tx_power_level,
                    ssid,
                    channel_width,
                    wireless_device_id,
                },
            ),
            _ => Err(Error::NotFound),
        }
    }

    /// Frame a request for this device: the command, the mode's
    /// flags, and one attribute addressing the device. A record with
    /// no device address cannot be addressed.
    pub fn prepare_message(&self, command: Command, mode: MessageMode) -> (r: Result<
        Message,
        Error,
    >)
        ensures
            (match self.wireless_device_id {
                WirelessDeviceId::DeviceIdentifier(id) => r matches Ok(m) && m.family
                    == self.family.id && m.command == command.spec_wire() && m.version == 1
                    && m.flags == mode.spec_flags() && attr_models(m.attributes@) =~= seq![
                    (153int, le_pack(id as int, 8)),
                ],
                WirelessDeviceId::InterfaceIndex(id) => r matches Ok(m) && m.family
                    == self.family.id && m.command == command.spec_wire() && m.version == 1
                    && m.flags == mode.spec_flags() && attr_models(m.attributes@) =~= seq![
                    (3int, le_pack(id as int, 4)),
                ],
                WirelessDeviceId::Unidentified => r == Err::<Message, Error>(Error::NoIdentifier),
            }),
    {
        let mut tx_msg = Message::new(self.family.id, command.to_wire(), mode);
        match self.wireless_device_id {
            WirelessDeviceId::DeviceIdentifier(id) => {
                tx_msg.append_attribute(Attribute::new::<u64>(153, &id));
                proof {
                    assert(attr_models(tx_msg.attributes@) =~= seq![
                        (153int, le_pack(id as int, 8)),
                    ]);
                }
                Ok(tx_msg)
            },
            WirelessDeviceId::InterfaceIndex(id) => {
                tx_msg.append_attribute(Attribute::new::<u32>(3, &id));
                proof {
                    assert(attr_models(tx_msg.attributes@) =~= seq![(3int, le_pack(id as int, 4))]);
                }
                Ok(tx_msg)
            },
            WirelessDeviceId::Unidentified => Err(Error::NoIdentifier),
        }
    }

    /// Frame a request for this device that also names its hardware
    /// address, as the connect and disconnect commands want.
    pub fn prepare_device_message(&self, command: Command, mode: MessageMode) -> (r: Result<
        Message,
        Error,
    >)
        ensures
            (match self.wireless_device_id {
                WirelessDeviceId::DeviceIdentifier(id) => r matches Ok(m) && m.family
                    == self.family.id && m.command == command.spec_wire() && m.version == 1
                    && m.flags == mode.spec_flags() && attr_models(m.attributes@) =~= seq![
                    (153int, le_pack(id as int, 8)),
                    (6int, self.mac@),
                ],
                WirelessDeviceId::InterfaceIndex(id) => r matches Ok(m) && m.family
                    == self.family.id && m.command == command.spec_wire() && m.version == 1
                    && m.flags == mode.spec_flags() && attr_models(m.attributes@) =~= seq![
                    (3int, le_pack(id as int, 4)),
                    (6int, self.mac@),
                ],
                WirelessDeviceId::Unidentified => r == Err::<Message, Error>(Error::NoIdentifier),
            }),
    {
        let mut tx_msg = match self.prepare_message(command, mode) {
            Ok(m) => m,
            Err(e) => {
                return Err(e);
            },
        };
        let ghost before = tx_msg.attributes@;
        tx_msg.append_attribute(Attribute::new::<HardwareAddress>(6, &self.mac));
        proof {
            assert(attr_models(tx_msg.attributes@) =~= attr_models(before) + seq![
                (6int, self.mac@),
            ]);
        }
        Ok(tx_msg)
    }
}

/// The model of a parsed interface record.
pub open spec fn wi_model(w: WirelessInterface) -> InterfaceScan {
    InterfaceScan {
        phy_id: Some(w.phy_id),
        interface_name: Some(w.interface_name@),
        interface_index: Some(w.interface_index),
        device_id: w.device_id,
        mac: Some(w.mac@),
        interface_type: w.interface_type,
        tx_power_level: w.tx_power_level,
        ssid: opt_text(w.ssid),
        channel_width: w.channel_width,
    }
}

/// The models of an interface list.
pub open spec fn wi_models(ws: Seq<WirelessInterface>) -> Seq<InterfaceScan> {
    ws.map(|i: int, w: WirelessInterface| wi_model(w))
}

/// Collect the interface records of one batch of received messages:
/// each data message of the family is decoded, and records that do
/// not decode to a complete interface are passed over.
pub open spec fn interfaces_scan(
    models: Seq<MessageModel>,
    family_id: u16,
    acc: Seq<InterfaceScan>,
) -> Result<Seq<InterfaceScan>, Error>
    decreases models.len(),
{
    if models.len() == 0 {
        Ok(acc)
    } else {
        match models[0] {
            MessageModel::Data(h, data) => {
                if h.identifier == family_id {
                    if data.len() < 4 {
                        Err(Error::Truncated)
                    } else {
                        match interface_scan(
                            spec_parse_attrs(data.skip(4)),
                            interface_scan_init(),
                        ) {
                            Ok(st) => if interface_complete(st) {
                                interfaces_scan(models.drop_first(), family_id, acc.push(st))
                            } else {
                                interfaces_scan(models.drop_first(), family_id, acc)
                            },
                            Err(_) => interfaces_scan(models.drop_first(), family_id, acc),
                        }
                    }
                } else {
                    interfaces_scan(models.drop_first(), family_id, acc)
                }
            },
            _ => interfaces_scan(models.drop_first(), family_id, acc),
        }
    }
}

/// Collect the interface records carried by one batch of received
/// messages addressed to `family`.
#[verifier::loop_isolation(false)]
pub fn interfaces_from_messages(
    messages: &Vec<crate::message::Message>,
    family: &Family,
) -> (r: Result<Vec<WirelessInterface>, Error>)
    ensures
        (match interfaces_scan(
            crate::message::message_models(messages@),
            family.id,
            Seq::empty(),
        ) {
            Ok(sts) => r matches Ok(v) && wi_models(v@) == sts && (forall|j: int|
                0 <= j < v@.len() ==> family_model(#[trigger] v@[j].family) == family_model(
                    *family,
                ) && v@[j].wireless_device_id == spec_device_id(wi_model(v@[j]))),
            Err(e) => r == Err::<Vec<WirelessInterface>, Error>(e),
        }),
{
    let ghost models = crate::message::message_models(messages@);
    let mut devices: Vec<WirelessInterface> = Vec::new();
    let mut i: usize = 0;
    proof {
        assert(models.skip(0) =~= models);
        assert(wi_models(devices@) =~= Seq::<InterfaceScan>::empty());
    }
    while i < messages.len()
        invariant
            i <= messages@.len(),
            interfaces_scan(models, family.id, Seq::empty()) == interfaces_scan(
                models.skip(i as int),
                family.id,
                wi_models(devices@),
            ),
            forall|j: int|
                0 <= j < devices@.len() ==> family_model((#[trigger] devices@[j]).family)
                    == family_model(*family),
            forall|j: int|
                0 <= j < devices@.len() ==> (#[trigger] devices@[j]).wireless_device_id
                    == spec_device_id(wi_model(devices@[j])),
        decreases messages@.len() - i,
    {
        proof {
            assert(models[i as int] == crate::message::message_model(messages@[i as int]));
            assert(models.skip(i as int).drop_first() =~= models.skip(i + 1));
            assert(models.skip(i as int)[0] == models[i as int]);
        }
        match &messages[i] {
            crate::message::Message::Data(d) => {
                if d.header.identifier == family.id {
                    let parsed = match Message::parse(d.data.as_slice()) {
                        Ok(m) => m,
                        Err(e) => {
                            return Err(e);
                        },
                    };
                    match WirelessInterface::from_message(&parsed, family.duplicate()) {
                        Ok(w) => {
                            proof {
                                assert(wi_models(devices@.push(w)) =~= wi_models(devices@).push(
                                    wi_model(w),
                                ));
                                let scan_res = interface_scan(
                                    spec_parse_attrs(d.data@.skip(4)),
                                    interface_scan_init(),
                                );
                                match scan_res {
                                    Ok(st) => {
                                        assert(wi_model(w) =~= st);
                                    },
                                    Err(_) => {},
                                }
                            }
                            devices.push(w);
                        },
                        Err(_) => {},
                    }
                }
            },
            _ => {},
        }
        i = i + 1;
    }
    proof {
        assert(models.skip(models.len() as int) =~= Seq::<MessageModel>::empty());
    }
    Ok(devices)
}

} // verus!
