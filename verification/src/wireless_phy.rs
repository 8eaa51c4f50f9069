//! Wireless phy (radio) records.
//!
//! A phy dump spreads one phy's attributes over several messages; the
//! records are grouped by phy id and each group is folded into one
//! record.

use vstd::prelude::*;
use crate::attribute::{Attribute, attr_models, parse_attributes, spec_parse_attrs};
use crate::codec::le_unpack;
use crate::commands::Command;
use crate::error::Error;
use crate::message::{Message as NetlinkMessage, MessageModel, message_model, message_models};
use crate::socket::ConvertFrom;
use crate::strings::spec_read_string;

verus! {

/// A parsed wireless phy record: the radio's id and name, the
/// commands it supports, and its supported interface types as bit
/// masks indexed by interface-type wire value.
#[derive(Debug)]
pub struct WirelessPhy {
    pub identifier: u32,
    pub name: String,
    pub commands: Vec<Command>,
    pub if_types: u32,
    pub software_if_types: u32,
}

/// The fields gathered while walking a phy message.
#[verifier::ext_equal]
pub struct PhyScan {
    pub identifier: Option<u32>,
    pub name: Seq<char>,
    pub commands: Seq<Command>,
    pub if_types: u32,
    pub software_if_types: u32,
}

/// The scan state before any attribute is read.
pub open spec fn phy_scan_init() -> PhyScan {
    PhyScan {
        identifier: None,
        name: Seq::empty(),
        commands: Seq::empty(),
        if_types: 0,
        software_if_types: 0,
    }
}

/// The interface-type mask of a nested supported-types list: one bit
/// per entry, indexed by the entry's identifier.
pub open spec fn iftype_fold(entries: Seq<(int, Seq<u8>)>, acc: u32) -> u32
    decreases entries.len(),
{
    if entries.len() == 0 {
        acc
    } else {
        let e = entries[0];
        if 0 <= e.0 <= 12 {
            iftype_fold(entries.drop_first(), acc | (1u32 << (e.0 as u32)))
        } else {
            iftype_fold(entries.drop_first(), acc)
        }
    }
}

/// The known commands of a nested supported-commands list; an entry
/// too short for its value fails the record.
pub open spec fn command_fold(entries: Seq<(int, Seq<u8>)>, acc: Seq<Command>) -> Result<
    Seq<Command>,
    Error,
>
    decreases entries.len(),
{
    if entries.len() == 0 {
        Ok(acc)
    } else {
        let e = entries[0];
        if e.1.len() < 4 {
            Err(Error::Truncated)
        } else {
            match Command::spec_convert_from((le_unpack(e.1.take(4)) % 0x100) as u8) {
                Some(c) => command_fold(entries.drop_first(), acc.push(c)),
                None => command_fold(entries.drop_first(), acc),
            }
        }
    }
}

/// Walk a phy message's attributes, keeping the last value seen for
/// each field.
pub open spec fn phy_scan(attrs: Seq<(int, Seq<u8>)>, st: PhyScan) -> Result<PhyScan, Error>
    decreases attrs.len(),
{
    if attrs.len() == 0 {
        Ok(st)
    } else {
        let a = attrs[0];
        let rest = attrs.drop_first();
        if a.0 == 1 {
            if a.1.len() >= 4 {
                phy_scan(rest, PhyScan { identifier: Some(le_unpack(a.1.take(4)) as u32), ..st })
            } else {
                Err(Error::Truncated)
            }
        } else if a.0 == 2 {
            match spec_read_string(a.1) {
                Some(s) => phy_scan(rest, PhyScan { name: s, ..st }),
                None => phy_scan(rest, st),
            }
        } else if a.0 == 121 {
            if a.1.len() >= 4 {
                phy_scan(rest, PhyScan { software_if_types: le_unpack(a.1.take(4)) as u32, ..st })
            } else {
                phy_scan(rest, st)
            }
        } else if a.0 == 32 {
            phy_scan(rest, PhyScan { if_types: iftype_fold(spec_parse_attrs(a.1), 0), ..st })
        } else if a.0 == 50 {
            match command_fold(spec_parse_attrs(a.1), st.commands) {
                Ok(cs) => phy_scan(rest, PhyScan { commands: cs, ..st }),
                Err(e) => Err(e),
            }
        } else {
            phy_scan(rest, st)
        }
    }
}

/// The model of a parsed phy record.
pub open spec fn phy_model(p: WirelessPhy) -> PhyScan {
    PhyScan {
        identifier: Some(p.identifier),
        name: p.name@,
        commands: p.commands@,
        if_types: p.if_types,
        software_if_types: p.software_if_types,
    }
}

impl WirelessPhy {
    /// Fold a phy's attribute list into a record. The phy id must be
    /// present, or the record is reported not found.
    #[verifier::loop_isolation(false)]
    pub fn from_attributes(attributes: &Vec<Attribute>) -> (r: Result<WirelessPhy, Error>)
        ensures
            (match phy_scan(attr_models(attributes@), phy_scan_init()) {
                Ok(st) => if st.identifier is Some {
                    r matches Ok(p) && phy_model(p) == st
                } else {
                    r == Err::<WirelessPhy, Error>(Error::NotFound)
                },
                Err(e) => r == Err::<WirelessPhy, Error>(e),
            }),
    {
        let ghost models = attr_models(attributes@);
        let mut phy_id: Option<u32> = None;
        let mut phy_name: String = String::new();
        let mut commands: Vec<Command> = Vec::new();
        let mut if_types: u32 = 0;
        let mut software_if_types: u32 = 0;
        let mut i: usize = 0;
        proof {
            assert(models.skip(0) =~= models);
            assert(phy_scan(models, phy_scan_init()) == phy_scan(
                models.skip(0),
                PhyScan {
                    identifier: None,
                    name: phy_name@,
                    commands: commands@,
                    if_types: 0,
                    software_if_types: 0,
                },
            )) by {
                assert(phy_scan_init() =~= (PhyScan {
                    identifier: None,
                    name: phy_name@,
                    commands: commands@,
                    if_types: 0,
                    software_if_types: 0,
                }));
            }
        }
        while i < attributes.len()
            invariant
                i <= attributes@.len(),
                phy_scan(models, phy_scan_init()) == phy_scan(
                    models.skip(i as int),
                    PhyScan {
                        identifier: phy_id,
                        name: phy_name@,
                        commands: commands@,
                        if_types: if_types,
                        software_if_types: software_if_types,
                    },
                ),
            decreases attributes@.len() - i,
        {
            let a = &attributes[i];
            proof {
                assert(models[i as int] == (a.identifier as int, a.data@));
                assert(models.skip(i as int).drop_first() =~= models.skip(i + 1));
                assert(models.skip(i as int)[0] == models[i as int]);
            }
            if a.identifier == 1 {
                match a.as_u32() {
                    Ok(v) => {
                        phy_id = Some(v);
                    },
                    Err(e) => {
                        return Err(e);
                    },
                }
            } else if a.identifier == 2 {
                match a.as_string() {
                    Ok(s) => {
                        phy_name = s;
                    },
                    Err(_) => {},
                }
            } else if a.identifier == 121 {
                match a.as_u32() {
                    Ok(v) => {
                        software_if_types = v;
                    },
                    Err(_) => {},
                }
            } else if a.identifier == 32 {
                let entries = parse_attributes(a.data.as_slice());
                let ghost entry_models = spec_parse_attrs(a.data@);
                let mut flags: u32 = 0;
                let mut j: usize = 0;
                proof {
                    assert(entry_models.skip(0) =~= entry_models);
                }
                while j < entries.len()
                    invariant
                        attr_models(entries@) =~= entry_models,
                        j <= entries@.len(),
                        entry_models.len() == entries@.len(),
                        iftype_fold(entry_models, 0) == iftype_fold(
                            entry_models.skip(j as int),
                            flags,
                        ),
                    decreases entries@.len() - j,
                {
                    let e = &entries[j];
                    proof {
                        assert(entry_models[j as int] == (e.identifier as int, e.data@));
                        assert(entry_models.skip(j as int).drop_first() =~= entry_models.skip(
                            j + 1,
                        ));
                        assert(entry_models.skip(j as int)[0] == entry_models[j as int]);
                    }
                    if e.identifier <= 12 {
                        flags = flags | (1u32 << (e.identifier as u32));
                    }
                    j = j + 1;
                }
                proof {
                    assert(entry_models.skip(entry_models.len() as int) =~= Seq::<
                        (int, Seq<u8>),
                    >::empty());
                }
                if_types = flags;
            } else if a.identifier == 50 {
                let entries = parse_attributes(a.data.as_slice());
                let ghost entry_models = spec_parse_attrs(a.data@);
                let ghost commands0 = commands@;
                let mut j: usize = 0;
                proof {
                    assert(entry_models.skip(0) =~= entry_models);
                }
                while j < entries.len()
                    invariant
                        attr_models(entries@) =~= entry_models,
                        j <= entries@.len(),
                        entry_models.len() == entries@.len(),
                        command_fold(entry_models, commands0) == command_fold(
                            entry_models.skip(j as int),
                            commands@,
                        ),
                    decreases entries@.len() - j,
                {
                    let e = &entries[j];
                    proof {
                        assert(entry_models[j as int] == (e.identifier as int, e.data@));
                        assert(entry_models.skip(j as int).drop_first() =~= entry_models.skip(
                            j + 1,
                        ));
                        assert(entry_models.skip(j as int)[0] == entry_models[j as int]);
                    }
                    let v = match e.as_u32() {
                        Ok(v) => v,
                        Err(err) => {
                            return Err(err);
                        },
                    };
                    match Command::convert_from((v % 0x100) as u8) {
                        Some(c) => {
                            commands.push(c);
                        },
                        None => {},
                    }
                    j = j + 1;
                }
                proof {
                    assert(entry_models.skip(entry_models.len() as int) =~= Seq::<
                        (int, Seq<u8>),
                    >::empty());
                }
            }
            i = i + 1;
        }
        proof {
            assert(models.skip(models.len() as int) =~= Seq::<(int, Seq<u8>)>::empty());
        }
        match phy_id {
            Some(identifier) => Ok(
                WirelessPhy {
                    identifier,
                    name: phy_name,
                    commands,
                    if_types,
                    software_if_types,
                },
            ),
            None => Err(Error::NotFound),
        }
    }
}

/// The phy id named by a message's attributes, the last occurrence
/// winning; a short id payload fails the walk.
pub open spec fn msg_phy_id(attrs: Seq<(int, Seq<u8>)>, cur: Option<u32>) -> Result<
    Option<u32>,
    Error,
>
    decreases attrs.len(),
{
    if attrs.len() == 0 {
        Ok(cur)
    } else {
        let a = attrs[0];
        if a.0 == 1 {
            if a.1.len() >= 4 {
                msg_phy_id(attrs.drop_first(), Some(le_unpack(a.1.take(4)) as u32))
            } else {
                Err(Error::Truncated)
            }
        } else {
            msg_phy_id(attrs.drop_first(), cur)
        }
    }
}

/// The record one phy's accumulated attributes fold into.
pub open spec fn spec_phy_of(attrs: Seq<(int, Seq<u8>)>) -> Result<PhyScan, Error> {
    match phy_scan(attrs, phy_scan_init()) {
        Ok(st) => if st.identifier is Some {
            Ok(st)
        } else {
            Err(Error::NotFound)
        },
        Err(e) => Err(e),
    }
}

/// Walk a phy dump: group the attributes of consecutive messages by
/// phy id, folding each finished group into one record. Messages of
/// other families and messages that name no phy are passed over.
pub open spec fn phys_walk(
    models: Seq<MessageModel>,
    family_id: u16,
    old_id: Option<u32>,
    pending: Seq<(int, Seq<u8>)>,
    acc: Seq<PhyScan>,
) -> Result<(Option<u32>, Seq<(int, Seq<u8>)>, Seq<PhyScan>), Error>
    decreases models.len(),
{
    if models.len() == 0 {
        Ok((old_id, pending, acc))
    } else {
        let rest = models.drop_first();
        match models[0] {
            MessageModel::Data(h, data) => {
                if h.identifier == family_id {
                    if data.len() < 4 {
                        Err(Error::Truncated)
                    } else {
                        let attrs = spec_parse_attrs(data.skip(4));
                        match msg_phy_id(attrs, None) {
                            Err(e) => Err(e),
                            Ok(None) => phys_walk(rest, family_id, None, pending, acc),
                            Ok(Some(id)) => {
                                if old_id matches Some(o) && o != id {
                                    match spec_phy_of(pending) {
                                        Err(e) => Err(e),
                                        Ok(st) => phys_walk(
                                            rest,
                                            family_id,
                                            Some(id),
                                            attrs,
                                            acc.push(st),
                                        ),
                                    }
                                } else {
                                    phys_walk(rest, family_id, Some(id), pending + attrs, acc)
                                }
                            },
                        }
                    }
                } else {
                    phys_walk(rest, family_id, old_id, pending, acc)
                }
            },
            _ => phys_walk(rest, family_id, old_id, pending, acc),
        }
    }
}

/// The phy records of one complete dump: the grouped walk, with the
/// last group folded at the end.
pub open spec fn spec_phys(models: Seq<MessageModel>, family_id: u16) -> Result<
    Seq<PhyScan>,
    Error,
> {
    match phys_walk(models, family_id, None, Seq::empty(), Seq::empty()) {
        Ok((_, pending, acc)) => if pending.len() > 0 {
            match spec_phy_of(pending) {
                Ok(st) => Ok(acc.push(st)),
                Err(e) => Err(e),
            }
        } else {
            Ok(acc)
        },
        Err(e) => Err(e),
    }
}

/// The models of a phy record list.
pub open spec fn phy_models(ps: Seq<WirelessPhy>) -> Seq<PhyScan> {
    ps.map(|i: int, p: WirelessPhy| phy_model(p))
}

/// Fold one complete phy dump, already drained from the socket, into
/// its phy records.
#[verifier::loop_isolation(false)]
pub fn phys_from_messages(messages: &Vec<NetlinkMessage>, family_id: u16) -> (r: Result<
    Vec<WirelessPhy>,
    Error,
>)
    ensures
        (match spec_phys(message_models(messages@), family_id) {
            Ok(sts) => r matches Ok(v) && phy_models(v@) == sts,
            Err(e) => r == Err::<Vec<WirelessPhy>, Error>(e),
        }),
{
    let ghost models = message_models(messages@);
    let mut phys: Vec<WirelessPhy> = Vec::new();
    let mut pending: Vec<crate::attribute::Attribute> = Vec::new();
    let mut old_phy_id: Option<u32> = None;
    let mut i: usize = 0;
    proof {
        assert(models.skip(0) =~= models);
        assert(phy_models(phys@) =~= Seq::<PhyScan>::empty());
        assert(attr_models(pending@) =~= Seq::<(int, Seq<u8>)>::empty());
    }
    while i < messages.len()
        invariant
            i <= messages@.len(),
            phys_walk(models, family_id, None, Seq::empty(), Seq::empty()) == phys_walk(
                models.skip(i as int),
                family_id,
                old_phy_id,
                attr_models(pending@),
                phy_models(phys@),
            ),
        decreases messages@.len() - i,
    {
        proof {
            assert(models[i as int] == message_model(messages@[i as int]));
            assert(models.skip(i as int).drop_first() =~= models.skip(i + 1));
            assert(models.skip(i as int)[0] == models[i as int]);
        }
        match &messages[i] {
            NetlinkMessage::Data(d) => {
                if d.header.identifier == family_id {
                    let mut parsed = match crate::generic::Message::parse(d.data.as_slice()) {
                        Ok(m) => m,
                        Err(e) => {
                            return Err(e);
                        },
                    };
                    let ghost msg_attrs = attr_models(parsed.attributes@);
                    let mut phy_id: Option<u32> = None;
                    let mut j: usize = 0;
                    proof {
                        assert(msg_attrs.skip(0) =~= msg_attrs);
                    }
                    while j < parsed.attributes.len()
                        invariant
                            msg_attrs == attr_models(parsed.attributes@),
                            j <= parsed.attributes@.len(),
                            msg_phy_id(msg_attrs, None) == msg_phy_id(
                                msg_attrs.skip(j as int),
                                phy_id,
                            ),
                        decreases parsed.attributes@.len() - j,
                    {
                        let a = &parsed.attributes[j];
                        proof {
                            assert(msg_attrs[j as int] == (a.identifier as int, a.data@));
                            assert(msg_attrs.skip(j as int).drop_first() =~= msg_attrs.skip(j + 1));
                            assert(msg_attrs.skip(j as int)[0] == msg_attrs[j as int]);
                        }
                        if a.identifier == 1 {
                            match a.as_u32() {
                                Ok(v) => {
                                    phy_id = Some(v);
                                },
                                Err(e) => {
                                    return Err(e);
                                },
                            }
                        }
                        j = j + 1;
                    }
                    proof {
                        assert(msg_attrs.skip(msg_attrs.len() as int) =~= Seq::<
                            (int, Seq<u8>),
                        >::empty());
                    }
                    match phy_id {
                        Some(id) => {
                            let flush = match old_phy_id {
                                Some(o) => o != id,
                                None => false,
                            };
                            if flush {
                                let phy = match WirelessPhy::from_attributes(&pending) {
                                    Ok(p) => p,
                                    Err(e) => {
                                        return Err(e);
                                    },
                                };
                                proof {
                                    assert(phy_models(phys@.push(phy)) =~= phy_models(phys@).push(
                                        phy_model(phy),
                                    ));
                                    let scan_res = phy_scan(attr_models(pending@), phy_scan_init());
                                    match scan_res {
                                        Ok(st) => {
                                            assert(phy_model(phy) =~= st);
                                        },
                                        Err(_) => {},
                                    }
                                }
                                phys.push(phy);
                                pending = parsed.attributes;
                            } else {
                                let ghost pend0 = attr_models(pending@);
                                pending.append(&mut parsed.attributes);
                                proof {
                                    assert(attr_models(pending@) =~= pend0 + msg_attrs);
                                }
                            }
                            old_phy_id = Some(id);
                        },
                        None => {
                            old_phy_id = None;
                        },
                    }
                }
            },
            _ => {},
        }
        i = i + 1;
    }
    proof {
        assert(models.skip(models.len() as int) =~= Seq::<MessageModel>::empty());
    }
    if pending.len() > 0 {
        let phy = match WirelessPhy::from_attributes(&pending) {
            Ok(p) => p,
            Err(e) => {
                return Err(e);
            },
        };
        proof {
            assert(phy_models(phys@.push(phy)) =~= phy_models(phys@).push(phy_model(phy)));
            let scan_res = phy_scan(attr_models(pending@), phy_scan_init());
            match scan_res {
                Ok(st) => {
                    assert(phy_model(phy) =~= st);
                },
                Err(_) => {},
            }
        }
        phys.push(phy);
    }
    Ok(phys)
}

} // verus!
