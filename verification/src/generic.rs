//! Generic netlink: the controller family, its messages, and family
//! resolution.
//!
//! A generic netlink payload is `{command: u8, version: u8,
//! reserved: u16}` followed by an attribute stream. The controller
//! family (id 16) resolves family names to numeric ids and lists
//! each family's multicast groups.

use vstd::prelude::*;
use vstd::string::StringSliceAdditionalSpecFns;
use crate::attribute::{Attribute, attr_models, parse_attributes, spec_parse_attrs,
    spec_attr_encoding};
use crate::codec::le_unpack;
use crate::error::Error;
use crate::message::{Message as NetlinkMessage, MessageModel, MessageMode, message_model, message_models};
use crate::socket::{ConvertFrom, Sendable};
use crate::spec_align4;
use crate::strings::spec_read_string;

verus! {

/// The fixed generic netlink family ids.
#[derive(Clone, Copy, Debug, PartialEq, Eq, Structural)]
pub enum FamilyId {
    Control,
    VirtualFileSystemDiskQuota,
    Raid,
}

impl FamilyId {
    /// The message type a family's messages carry.
    pub open spec fn spec_wire(&self) -> u16 {
        match *self {
            FamilyId::Control => 16,
            FamilyId::VirtualFileSystemDiskQuota => 17,
            FamilyId::Raid => 18,
        }
    }

    /// The message type a family's messages carry.
    pub fn to_wire(&self) -> (r: u16)
        ensures
            r == self.spec_wire(),
    {
        match *self {
            FamilyId::Control => 16,
            FamilyId::VirtualFileSystemDiskQuota => 17,
            FamilyId::Raid => 18,
        }
    }
}

impl ConvertFrom<u16> for FamilyId {
    open spec fn spec_convert_from(value: u16) -> Option<FamilyId> {
        match value {
            16u16 => Some(FamilyId::Control),
            17u16 => Some(FamilyId::VirtualFileSystemDiskQuota),
            18u16 => Some(FamilyId::Raid),
            _ => None,
        }
    }

    fn convert_from(value: u16) -> (r: Option<FamilyId>) {
        match value {
            16u16 => Some(FamilyId::Control),
            17u16 => Some(FamilyId::VirtualFileSystemDiskQuota),
            18u16 => Some(FamilyId::Raid),
            _ => None,
        }
    }
}

/// The controller family's commands.
#[derive(Clone, Copy, Debug, PartialEq, Eq, Structural)]
pub enum Command {
    Unspecified,
    NewFamily,
    DelFamily,
    GetFamily,
    NewOps,
    DelOps,
    GetOps,
    NewMulticastGroup,
    DelMulticastGroup,
    GetMulticastGroup,
}

impl Command {
    /// The command's wire value.
    pub open spec fn spec_wire(&self) -> u8 {
        match *self {
            Command::Unspecified => 0,
            Command::NewFamily => 1,
            Command::DelFamily => 2,
            Command::GetFamily => 3,
            Command::NewOps => 4,
            Command::DelOps => 5,
            Command::GetOps => 6,
            Command::NewMulticastGroup => 7,
            Command::DelMulticastGroup => 8,
            Command::GetMulticastGroup => 9,
        }
    }

    /// The command's wire value.
    pub fn to_wire(&self) -> (r: u8)
        ensures
            r == self.spec_wire(),
    {
        match *self {
            Command::Unspecified => 0,
            Command::NewFamily => 1,
            Command::DelFamily => 2,
            Command::GetFamily => 3,
            Command::NewOps => 4,
            Command::DelOps => 5,
            Command::GetOps => 6,
            Command::NewMulticastGroup => 7,
            Command::DelMulticastGroup => 8,
            Command::GetMulticastGroup => 9,
        }
    }
}

impl ConvertFrom<u8> for Command {
    open spec fn spec_convert_from(value: u8) -> Option<Command> {
        match value {
            0u8 => Some(Command::Unspecified),
            1u8 => Some(Command::NewFamily),
            2u8 => Some(Command::DelFamily),
            3u8 => Some(Command::GetFamily),
            4u8 => Some(Command::NewOps),
            5u8 => Some(Command::DelOps),
            6u8 => Some(Command::GetOps),
            7u8 => Some(Command::NewMulticastGroup),
            8u8 => Some(Command::DelMulticastGroup),
            9u8 => Some(Command::GetMulticastGroup),
            _ => None,
        }
    }

    fn convert_from(value: u8) -> (r: Option<Command>) {
        match value {
            0u8 => Some(Command::Unspecified),
            1u8 => Some(Command::NewFamily),
            2u8 => Some(Command::DelFamily),
            3u8 => Some(Command::GetFamily),
            4u8 => Some(Command::NewOps),
            5u8 => Some(Command::DelOps),
            6u8 => Some(Command::GetOps),
            7u8 => Some(Command::NewMulticastGroup),
            8u8 => Some(Command::DelMulticastGroup),
            9u8 => Some(Command::GetMulticastGroup),
            _ => None,
        }
    }
}

/// The controller family's attribute identifiers.
pub const CTRL_ATTR_FAMILY_ID: u16 = 1;

/// Attribute holding a family's name.
pub const CTRL_ATTR_FAMILY_NAME: u16 = 2;

/// Attribute holding a family's multicast group list.
pub const CTRL_ATTR_MCAST_GROUPS: u16 = 7;

/// Multicast-group attribute holding the group's name.
pub const CTRL_ATTR_MCAST_GRP_NAME: u16 = 1;

/// Multicast-group attribute holding the group's id.
pub const CTRL_ATTR_MCAST_GRP_ID: u16 = 2;

/// A generic netlink message: the family it addresses, a command, a
/// protocol version, header flags and an attribute stream.
pub struct Message {
    pub family: u16,
    pub command: u8,
    pub version: u8,
    pub flags: u16,
    pub attributes: Vec<Attribute>,
}

/// A run of `n` zero octets.
pub open spec fn pad_zeros(n: int) -> Seq<u8> {
    Seq::new(n as nat, |i: int| 0u8)
}

/// The serialized attribute stream: each attribute's encoding, padded
/// to the next four-byte boundary.
pub open spec fn spec_attrs_bytes(attrs: Seq<Attribute>) -> Seq<u8>
    decreases attrs.len(),
{
    if attrs.len() == 0 {
        Seq::empty()
    } else {
        let a = attrs[0];
        let enc = spec_attr_encoding(a.identifier, a.data@);
        enc + pad_zeros(spec_align4(enc.len() as int) - enc.len()) + spec_attrs_bytes(
            attrs.drop_first(),
        )
    }
}

/// Whether every attribute's payload fits its length field.
pub open spec fn attrs_writable(attrs: Seq<Attribute>) -> bool {
    forall|i: int| 0 <= i < attrs.len() ==> (#[trigger] attrs[i].data@).len() + 4 <= u16::MAX
}

impl Message {
    /// A fresh request for `family` carrying `command`, with the
    /// flags of `mode` and no attributes yet.
    pub fn new(family: u16, command: u8, mode: MessageMode) -> (r: Message)
        ensures
            r.family == family,
            r.command == command,
            r.version == 1,
            r.flags == mode.spec_flags(),
            r.attributes@ =~= Seq::<Attribute>::empty(),
    {
        Message { family, command, version: 1, flags: mode.flags(), attributes: Vec::new() }
    }

    /// Parse a generic netlink payload: command, version, a reserved
    /// word, then the attribute stream.
    ///
    /// The receive path does not know the family a payload belongs
    /// to, so the parsed message carries the unspecified family
    /// `0xffff` and empty flags.
    pub fn parse(buffer: &[u8]) -> (r: Result<Message, Error>)
        ensures
            r is Ok <==> buffer@.len() >= 4,
            r is Err ==> r == Err::<Message, Error>(Error::Truncated),
            r matches Ok(m) ==> m.family == 0xffff && m.command == buffer@[0] && m.version
                == buffer@[1] && m.flags == 0 && attr_models(m.attributes@) == spec_parse_attrs(
                buffer@.skip(4),
            ),
    {
        if buffer.len() < 4 {
            return Err(Error::Truncated);
        }
        let command = buffer[0];
        let version = buffer[1];
        let rest = vstd::slice::slice_subrange(buffer, 4, buffer.len());
        proof {
            assert(rest@ =~= buffer@.skip(4));
        }
        let attributes = parse_attributes(rest);
        Ok(Message { family: 0xffff, command, version, flags: 0, attributes })
    }

    /// The family the message addresses.
    pub fn family(&self) -> (r: u16)
        ensures
            r == self.family,
    {
        self.family
    }

    /// Replace the header flags the request asks for.
    pub fn set_flags(&mut self, flags: u16)
        ensures
            *final(self) == (Message { flags, ..*old(self) }),
    {
        self.flags = flags;
    }

    /// Append one attribute to the request.
    pub fn append_attribute(&mut self, attr: Attribute)
        ensures
            final(self).attributes@ == old(self).attributes@.push(attr),
            final(self).family == old(self).family,
            final(self).command == old(self).command,
            final(self).version == old(self).version,
            final(self).flags == old(self).flags,
    {
        self.attributes.push(attr);
    }
}

impl Sendable for Message {
    open spec fn write_ok(&self) -> bool {
        attrs_writable(self.attributes@)
    }

    open spec fn payload_bytes(&self) -> Seq<u8> {
        seq![self.command, self.version, 0u8, 0u8] + spec_attrs_bytes(self.attributes@)
    }

    open spec fn spec_message_type(&self) -> u16 {
        self.family
    }

    open spec fn spec_query_flags(&self) -> u16 {
        self.flags
    }

    fn write(&self, out: &mut Vec<u8>) -> (r: Result<(), Error>) {
        let mut i: usize = 0;
        while i < self.attributes.len()
            invariant
                i <= self.attributes@.len(),
                forall|j: int|
                    0 <= j < i ==> (#[trigger] self.attributes@[j].data@).len() + 4 <= u16::MAX,
            decreases self.attributes@.len() - i,
        {
            if self.attributes[i].data.len() > (u16::MAX - 4) as usize {
                return Err(Error::Truncated);
            }
            i = i + 1;
        }
        let mut body: Vec<u8> = Vec::new();
        body.push(self.command);
        body.push(self.version);
        body.push(0u8);
        body.push(0u8);
        proof {
            assert(body@ =~= seq![self.command, self.version, 0u8, 0u8]);
            assert(spec_attrs_bytes(self.attributes@.skip(0)) == spec_attrs_bytes(
                self.attributes@,
            )) by {
                assert(self.attributes@.skip(0) =~= self.attributes@);
            }
        }
        let mut k: usize = 0;
        while k < self.attributes.len()
            invariant
                k <= self.attributes@.len(),
                attrs_writable(self.attributes@),
                body@ =~= seq![self.command, self.version, 0u8, 0u8] + spec_attrs_bytes(
                    self.attributes@,
                ).take(body@.len() - 4),
                body@.len() >= 4,
                spec_attrs_bytes(self.attributes@) =~= body@.skip(4) + spec_attrs_bytes(
                    self.attributes@.skip(k as int),
                ),
            decreases self.attributes@.len() - k,
        {
            let ghost before = body@;
            let attr = &self.attributes[k];
            attr.write(&mut body);
            let pad = crate::align::netlink_padding(attr.data.len() + 4);
            let mut p: usize = 0;
            while p < pad
                invariant
                    p <= pad,
                    body@ =~= before + spec_attr_encoding(attr.identifier, attr.data@) + pad_zeros(
                        p as int,
                    ),
                decreases pad - p,
            {
                proof {
                    assert(pad_zeros(p + 1) =~= pad_zeros(p as int).push(0u8));
                }
                body.push(0u8);
                p = p + 1;
            }
            proof {
                let models = self.attributes@;
                assert(models.skip(k as int).drop_first() =~= models.skip(k + 1));
                let enc = spec_attr_encoding(attr.identifier, attr.data@);
                crate::codec::lemma_le_pack_len(attr.data@.len() as int + 4, 2);
                crate::codec::lemma_le_pack_len(attr.identifier as int, 2);
                assert(enc.len() == attr.data@.len() + 4);
                assert(pad_zeros(pad as int) =~= pad_zeros(
                    spec_align4(enc.len() as int) - enc.len(),
                ));
                assert(spec_attrs_bytes(models.skip(k as int)) == enc + pad_zeros(
                    spec_align4(enc.len() as int) - enc.len(),
                ) + spec_attrs_bytes(models.skip(k + 1)));
                assert(body@ =~= before + enc + pad_zeros(pad as int));
                assert(body@.skip(4) =~= before.skip(4) + enc + pad_zeros(pad as int));
                assert(spec_attrs_bytes(self.attributes@) =~= body@.skip(4) + spec_attrs_bytes(
                    self.attributes@.skip(k + 1),
                ));
                assert(body@ =~= seq![self.command, self.version, 0u8, 0u8] + spec_attrs_bytes(
                    self.attributes@,
                ).take(body@.len() - 4));
            }
            k = k + 1;
        }
        proof {
            assert(spec_attrs_bytes(self.attributes@.skip(self.attributes@.len() as int))
                =~= Seq::<u8>::empty());
            assert(body@ =~= seq![self.command, self.version, 0u8, 0u8] + spec_attrs_bytes(
                self.attributes@,
            ));
        }
        let ghost prior = out@;
        out.append(&mut body);
        proof {
            assert(out@ =~= prior + self.payload_bytes());
        }
        Ok(())
    }

    fn message_type(&self) -> (r: u16) {
        self.family
    }

    fn query_flags(&self) -> (r: u16) {
        self.flags
    }
}

/// A multicast group of a generic netlink family: its id and name.
#[derive(Clone, Debug)]
pub struct MultiCastGroup {
    pub id: u32,
    pub name: String,
}

/// The model of a multicast group.
pub open spec fn group_model(g: MultiCastGroup) -> (u32, Seq<char>) {
    (g.id, g.name@)
}

/// The models of a multicast group list.
pub open spec fn group_models(gs: Seq<MultiCastGroup>) -> Seq<(u32, Seq<char>)> {
    gs.map(|i: int, g: MultiCastGroup| group_model(g))
}

/// Walk a multicast group's attributes, keeping the last id and name
/// seen. A name that is not text fails; a short id payload is ignored.
pub open spec fn group_scan(
    attrs: Seq<(int, Seq<u8>)>,
    id: Option<u32>,
    name: Seq<char>,
) -> Result<(Option<u32>, Seq<char>), Error>
    decreases attrs.len(),
{
    if attrs.len() == 0 {
        Ok((id, name))
    } else {
        let a = attrs[0];
        let rest = attrs.drop_first();
        if a.0 == CTRL_ATTR_MCAST_GRP_NAME {
            match spec_read_string(a.1) {
                Some(s) => group_scan(rest, id, s),
                None => Err(Error::Utf8),
            }
        } else if a.0 == CTRL_ATTR_MCAST_GRP_ID {
            if a.1.len() >= 4 {
                group_scan(rest, Some(le_unpack(a.1.take(4)) as u32), name)
            } else {
                group_scan(rest, id, name)
            }
        } else {
            group_scan(rest, id, name)
        }
    }
}

/// The group a nested group payload decodes to: its attributes are
/// walked, and an absent id is a not-found failure.
pub open spec fn spec_group(b: Seq<u8>) -> Result<(u32, Seq<char>), Error> {
    match group_scan(spec_parse_attrs(b), None, Seq::empty()) {
        Ok((Some(id), name)) => Ok((id, name)),
        Ok((None, _)) => Err(Error::NotFound),
        Err(e) => Err(e),
    }
}

impl MultiCastGroup {
    /// Decode one multicast group from the payload of its nested
    /// attribute.
    #[verifier::loop_isolation(false)]
    pub fn from_bytes(bytes: &[u8]) -> (r: Result<MultiCastGroup, Error>)
        ensures
            (match spec_group(bytes@) {
                Ok((id, name)) => r matches Ok(g) && g.id == id && g.name@ == name,
                Err(e) => r == Err::<MultiCastGroup, Error>(e),
            }),
    {
        let attrs = parse_attributes(bytes);
        let ghost models = spec_parse_attrs(bytes@);
        let mut group_id: Option<u32> = None;
        let mut group_name: String = String::new();
        let mut i: usize = 0;
        proof {
            assert(models.skip(0) =~= models);
        }
        while i < attrs.len()
            invariant
                attr_models(attrs@) =~= models,
                i <= attrs@.len(),
                models.len() == attrs@.len(),
                group_scan(models, None, Seq::empty()) == group_scan(
                    models.skip(i as int),
                    group_id,
                    group_name@,
                ),
            decreases attrs@.len() - i,
        {
            let a = &attrs[i];
            proof {
                assert(models[i as int] == (a.identifier as int, a.data@));
                assert(models.skip(i as int).drop_first() =~= models.skip(i + 1));
                assert(models.skip(i as int)[0] == models[i as int]);
            }
            if a.identifier == CTRL_ATTR_MCAST_GRP_NAME {
                match a.as_string() {
                    Ok(s) => {
                        group_name = s;
                    },
                    Err(e) => {
                        proof {
                            assert(spec_read_string(a.data@) is None);
                            assert(group_scan(models.skip(i as int), group_id, group_name@)
                                == Err::<(Option<u32>, Seq<char>), Error>(Error::Utf8));
                            assert(group_scan(models, None, Seq::empty()) == Err::<
                                (Option<u32>, Seq<char>),
                                Error,
                            >(Error::Utf8));
                        }
                        return Err(e);
                    },
                }
            } else if a.identifier == CTRL_ATTR_MCAST_GRP_ID {
                match a.as_u32() {
                    Ok(v) => {
                        group_id = Some(v);
                    },
                    Err(_) => {},
                }
            }
            i = i + 1;
        }
        proof {
            assert(models.skip(models.len() as int) =~= Seq::<(int, Seq<u8>)>::empty());
        }
        match group_id {
            Some(id) => Ok(MultiCastGroup { id, name: group_name }),
            None => Err(Error::NotFound),
        }
    }
}

/// A resolved generic netlink family: its numeric id, its name, and
/// its multicast groups.
#[derive(Clone, Debug)]
pub struct Family {
    pub id: u16,
    pub name: String,
    pub multicast_groups: Vec<MultiCastGroup>,
}

/// The model of a family.
pub open spec fn family_model(f: Family) -> (u16, Seq<char>, Seq<(u32, Seq<char>)>) {
    (f.id, f.name@, group_models(f.multicast_groups@))
}

/// Walk the nested group entries of a `MulticastGroups` attribute,
/// decoding each entry's payload as one group.
pub open spec fn groups_scan(
    entries: Seq<(int, Seq<u8>)>,
    acc: Seq<(u32, Seq<char>)>,
) -> Result<Seq<(u32, Seq<char>)>, Error>
    decreases entries.len(),
{
    if entries.len() == 0 {
        Ok(acc)
    } else {
        match spec_group(entries[0].1) {
            Ok(g) => groups_scan(entries.drop_first(), acc.push(g)),
            Err(e) => Err(e),
        }
    }
}

/// Walk a family message's attributes, keeping the last id and name
/// seen and accumulating multicast groups.
pub open spec fn family_scan(
    attrs: Seq<(int, Seq<u8>)>,
    id: u16,
    name: Seq<char>,
    groups: Seq<(u32, Seq<char>)>,
) -> Result<(u16, Seq<char>, Seq<(u32, Seq<char>)>), Error>
    decreases attrs.len(),
{
    if attrs.len() == 0 {
        Ok((id, name, groups))
    } else {
        let a = attrs[0];
        let rest = attrs.drop_first();
        if a.0 == CTRL_ATTR_FAMILY_NAME {
            match spec_read_string(a.1) {
                Some(s) => family_scan(rest, id, s, groups),
                None => Err(Error::Utf8),
            }
        } else if a.0 == CTRL_ATTR_FAMILY_ID {
            if a.1.len() >= 2 {
                family_scan(rest, le_unpack(a.1.take(2)) as u16, name, groups)
            } else {
                Err(Error::Truncated)
            }
        } else if a.0 == CTRL_ATTR_MCAST_GROUPS {
            match groups_scan(spec_parse_attrs(a.1), groups) {
                Ok(gs) => family_scan(rest, id, name, gs),
                Err(e) => Err(e),
            }
        } else {
            family_scan(rest, id, name, groups)
        }
    }
}

/// The family a message's attributes decode to: a family id of zero
/// is a not-found failure.
pub open spec fn spec_family(attrs: Seq<(int, Seq<u8>)>) -> Result<
    (u16, Seq<char>, Seq<(u32, Seq<char>)>),
    Error,
> {
    match family_scan(attrs, 0, Seq::empty(), Seq::empty()) {
        Ok((id, name, groups)) => if id > 0 {
            Ok((id, name, groups))
        } else {
            Err(Error::NotFound)
        },
        Err(e) => Err(e),
    }
}

impl Family {
    /// A field-for-field copy of the family.
    #[verifier::loop_isolation(false)]
    pub fn duplicate(&self) -> (r: Family)
        ensures
            family_model(r) == family_model(*self),
    {
        let mut groups: Vec<MultiCastGroup> = Vec::new();
        let mut i: usize = 0;
        proof {
            assert(group_models(groups@) =~= group_models(self.multicast_groups@).take(0));
        }
        while i < self.multicast_groups.len()
            invariant
                i <= self.multicast_groups@.len(),
                group_models(groups@) =~= group_models(self.multicast_groups@).take(i as int),
            decreases self.multicast_groups@.len() - i,
        {
            let g = &self.multicast_groups[i];
            let copy = MultiCastGroup { id: g.id, name: g.name.clone() };
            proof {
                assert(group_models(groups@.push(copy)) =~= group_models(groups@).push(
                    group_model(copy),
                ));
                assert(group_models(self.multicast_groups@).take(i + 1) =~= group_models(
                    self.multicast_groups@,
                ).take(i as int).push(group_model(self.multicast_groups@[i as int])));
            }
            groups.push(copy);
            i = i + 1;
        }
        proof {
            assert(group_models(self.multicast_groups@).take(self.multicast_groups@.len() as int)
                =~= group_models(self.multicast_groups@));
        }
        Family { id: self.id, name: self.name.clone(), multicast_groups: groups }
    }

    /// Decode a family from a parsed controller message.
    #[verifier::loop_isolation(false)]
    pub fn from_message(message: &Message) -> (r: Result<Family, Error>)
        ensures
            (match spec_family(attr_models(message.attributes@)) {
                Ok(model) => r matches Ok(f) && family_model(f) == model,
                Err(e) => r == Err::<Family, Error>(e),
            }),
    {
        let ghost models = attr_models(message.attributes@);
        let mut family_id: u16 = 0;
        let mut family_name: String = String::new();
        let mut groups: Vec<MultiCastGroup> = Vec::new();
        let mut i: usize = 0;
        proof {
            assert(models.skip(0) =~= models);
            assert(group_models(groups@) =~= Seq::<(u32, Seq<char>)>::empty());
        }
        while i < message.attributes.len()
            invariant
                models == attr_models(message.attributes@),
                i <= message.attributes@.len(),
                models.len() == message.attributes@.len(),
                family_scan(models, 0, Seq::empty(), Seq::empty()) == family_scan(
                    models.skip(i as int),
                    family_id,
                    family_name@,
                    group_models(groups@),
                ),
            decreases message.attributes@.len() - i,
        {
            let a = &message.attributes[i];
            proof {
                assert(models[i as int] == (a.identifier as int, a.data@));
                assert(models.skip(i as int).drop_first() =~= models.skip(i + 1));
                assert(models.skip(i as int)[0] == models[i as int]);
            }
            if a.identifier == CTRL_ATTR_FAMILY_NAME {
                match a.as_string() {
                    Ok(s) => {
                        family_name = s;
                    },
                    Err(e) => {
                        return Err(e);
                    },
                }
            } else if a.identifier == CTRL_ATTR_FAMILY_ID {
                match a.as_u16() {
                    Ok(v) => {
                        family_id = v;
                    },
                    Err(e) => {
                        return Err(e);
                    },
                }
            } else if a.identifier == CTRL_ATTR_MCAST_GROUPS {
                let entries = parse_attributes(a.data.as_slice());
                let ghost entry_models = spec_parse_attrs(a.data@);
                let ghost groups0 = group_models(groups@);
                let mut j: usize = 0;
                proof {
                    assert(entry_models.skip(0) =~= entry_models);
                }
                while j < entries.len()
                    invariant
                        attr_models(entries@) =~= entry_models,
                        j <= entries@.len(),
                        entry_models.len() == entries@.len(),
                        groups_scan(entry_models, groups0) == groups_scan(
                            entry_models.skip(j as int),
                            group_models(groups@),
                        ),
                    decreases entries@.len() - j,
                {
                    let entry = &entries[j];
                    proof {
                        assert(entry_models[j as int] == (entry.identifier as int, entry.data@));
                        assert(entry_models.skip(j as int).drop_first() =~= entry_models.skip(
                            j + 1,
                        ));
                        assert(entry_models.skip(j as int)[0] == entry_models[j as int]);
                    }
                    let ghost before = groups@;
                    match MultiCastGroup::from_bytes(entry.data.as_slice()) {
                        Ok(g) => {
                            proof {
                                assert(group_models(before.push(g)) =~= group_models(before).push(
                                    group_model(g),
                                ));
                            }
                            groups.push(g);
                        },
                        Err(e) => {
                            return Err(e);
                        },
                    }
                    j = j + 1;
                }
                proof {
                    assert(entry_models.skip(entry_models.len() as int) =~= Seq::<
                        (int, Seq<u8>),
                    >::empty());
                }
            }
            i = i + 1;
        }
        proof {
            assert(models.skip(models.len() as int) =~= Seq::<(int, Seq<u8>)>::empty());
        }
        if family_id > 0 {
            Ok(Family { id: family_id, name: family_name, multicast_groups: groups })
        } else {
            Err(Error::NotFound)
        }
    }
}


/// The family a data message's generic payload decodes to.
pub open spec fn spec_family_of_payload(data: Seq<u8>) -> Result<
    (u16, Seq<char>, Seq<(u32, Seq<char>)>),
    Error,
> {
    if data.len() < 4 {
        Err(Error::Truncated)
    } else {
        spec_family(spec_parse_attrs(data.skip(4)))
    }
}

/// Scan a batch of received messages for the first controller
/// message whose family name is `name`.
pub open spec fn find_family_scan(models: Seq<MessageModel>, name: Seq<char>) -> Result<
    Option<(u16, Seq<char>, Seq<(u32, Seq<char>)>)>,
    Error,
>
    decreases models.len(),
{
    if models.len() == 0 {
        Ok(None)
    } else {
        match models[0] {
            MessageModel::Data(h, data) => {
                if h.identifier == 16 {
                    match spec_family_of_payload(data) {
                        Ok(f) => if f.1 == name {
                            Ok(Some(f))
                        } else {
                            find_family_scan(models.drop_first(), name)
                        },
                        Err(e) => Err(e),
                    }
                } else {
                    find_family_scan(models.drop_first(), name)
                }
            },
            _ => find_family_scan(models.drop_first(), name),
        }
    }
}

/// Collect every family carried by a batch of received controller
/// messages; a DONE marker ends the batch.
pub open spec fn families_scan(
    models: Seq<MessageModel>,
    acc: Seq<(u16, Seq<char>, Seq<(u32, Seq<char>)>)>,
) -> Result<Seq<(u16, Seq<char>, Seq<(u32, Seq<char>)>)>, Error>
    decreases models.len(),
{
    if models.len() == 0 {
        Ok(acc)
    } else {
        match models[0] {
            MessageModel::Data(h, data) => {
                if h.identifier == 16 {
                    match spec_family_of_payload(data) {
                        Ok(f) => families_scan(models.drop_first(), acc.push(f)),
                        Err(e) => Err(e),
                    }
                } else {
                    families_scan(models.drop_first(), acc)
                }
            },
            MessageModel::Done => Ok(acc),
            MessageModel::Acknowledge => families_scan(models.drop_first(), acc),
        }
    }
}

/// The models of a family list.
pub open spec fn family_models(fs: Seq<Family>) -> Seq<(u16, Seq<char>, Seq<(u32, Seq<char>)>)> {
    fs.map(|i: int, f: Family| family_model(f))
}

/// Look for a resolved family named `name` in one batch of received
/// messages. Controller messages whose family does not match are
/// passed over; a malformed controller message fails the search.
#[verifier::loop_isolation(false)]
pub fn find_family_in_messages(messages: &Vec<NetlinkMessage>, name: &str) -> (r: Result<
    Option<Family>,
    Error,
>)
    ensures
        (match find_family_scan(message_models(messages@), name@) {
            Ok(Some(f)) => r matches Ok(Some(fam)) && family_model(fam) == f,
            Ok(None) => r == Ok::<Option<Family>, Error>(None::<Family>),
            Err(e) => r == Err::<Option<Family>, Error>(e),
        }),
{
    let ghost models = message_models(messages@);
    let mut i: usize = 0;
    proof {
        assert(models.skip(0) =~= models);
    }
    while i < messages.len()
        invariant
            i <= messages@.len(),
            find_family_scan(models, name@) == find_family_scan(models.skip(i as int), name@),
        decreases messages@.len() - i,
    {
        proof {
            assert(models[i as int] == message_model(messages@[i as int]));
            assert(models.skip(i as int).drop_first() =~= models.skip(i + 1));
            assert(models.skip(i as int)[0] == models[i as int]);
        }
        match &messages[i] {
            NetlinkMessage::Data(d) => {
                if d.header.identifier == 16 {
                    let parsed = match Message::parse(d.data.as_slice()) {
                        Ok(m) => m,
                        Err(e) => {
                            return Err(e);
                        },
                    };
                    match Family::from_message(&parsed) {
                        Ok(f) => {
                            if crate::strings::str_eq(f.name.as_str(), name) {
                                return Ok(Some(f));
                            }
                        },
                        Err(e) => {
                            return Err(e);
                        },
                    }
                }
            },
            _ => {},
        }
        i = i + 1;
    }
    proof {
        assert(models.skip(models.len() as int) =~= Seq::<MessageModel>::empty());
    }
    Ok(None)
}

/// Collect the families carried by one batch of received controller
/// messages, stopping at a DONE marker.
#[verifier::loop_isolation(false)]
pub fn families_from_messages(messages: &Vec<NetlinkMessage>) -> (r: Result<Vec<Family>, Error>)
    ensures
        (match families_scan(message_models(messages@), Seq::empty()) {
            Ok(fs) => r matches Ok(v) && family_models(v@) == fs,
            Err(e) => r == Err::<Vec<Family>, Error>(e),
        }),
{
    let ghost models = message_models(messages@);
    let mut families: Vec<Family> = Vec::new();
    let mut i: usize = 0;
    proof {
        assert(models.skip(0) =~= models);
        assert(family_models(families@) =~= Seq::<(u16, Seq<char>, Seq<(u32, Seq<char>)>)>::empty());
    }
    while i < messages.len()
        invariant
            i <= messages@.len(),
            families_scan(models, Seq::empty()) == families_scan(
                models.skip(i as int),
                family_models(families@),
            ),
        decreases messages@.len() - i,
    {
        proof {
            assert(models[i as int] == message_model(messages@[i as int]));
            assert(models.skip(i as int).drop_first() =~= models.skip(i + 1));
            assert(models.skip(i as int)[0] == models[i as int]);
        }
        match &messages[i] {
            NetlinkMessage::Data(d) => {
                if d.header.identifier == 16 {
                    let parsed = match Message::parse(d.data.as_slice()) {
                        Ok(m) => m,
                        Err(e) => {
                            return Err(e);
                        },
                    };
                    match Family::from_message(&parsed) {
                        Ok(f) => {
                            proof {
                                assert(family_models(families@.push(f)) =~= family_models(
                                    families@,
                                ).push(family_model(f)));
                            }
                            families.push(f);
                        },
                        Err(e) => {
                            return Err(e);
                        },
                    }
                }
            },
            NetlinkMessage::Done => {
                return Ok(families);
            },
            NetlinkMessage::Acknowledge => {},
        }
        i = i + 1;
    }
    proof {
        assert(models.skip(models.len() as int) =~= Seq::<MessageModel>::empty());
    }
    Ok(families)
}

} // verus!
