//! The rtnetlink (route) family: link queries.

use vstd::prelude::*;
use crate::attribute::{Attribute, attr_models, parse_attributes, spec_parse_attrs};
use crate::codec::as_signed;
use crate::codec::le_unpack;
use crate::error::Error;
use crate::generic::{attrs_writable, spec_attrs_bytes};
use crate::message::NLM_F_DUMP;
use crate::message::NLM_F_REQUEST;
use crate::socket::{ConvertFrom, Sendable};
use crate::variant::NativeRead;

verus! {

/// The link-layer address family number (`AF_PACKET`), fixed by the
/// kernel ABI.
pub const AF_PACKET: u8 = 17;

/// The rtnetlink link message types.
#[derive(Clone, Copy, Debug, PartialEq, Eq, Structural)]
pub enum FamilyId {
    NewLink,
    DeleteLink,
    GetLink,
    SetLink,
}

impl FamilyId {
    /// The message type's wire value.
    pub open spec fn spec_wire(&self) -> u16 {
        match *self {
            FamilyId::NewLink => 16,
            FamilyId::DeleteLink => 17,
            FamilyId::GetLink => 18,
            FamilyId::SetLink => 19,
        }
    }

    /// The message type's wire value.
    pub fn to_wire(&self) -> (r: u16)
        ensures
            r == self.spec_wire(),
    {
        match *self {
            FamilyId::NewLink => 16,
            FamilyId::DeleteLink => 17,
            FamilyId::GetLink => 18,
            FamilyId::SetLink => 19,
        }
    }
}

impl ConvertFrom<u16> for FamilyId {
    open spec fn spec_convert_from(value: u16) -> Option<FamilyId> {
        match value {
            16u16 => Some(FamilyId::NewLink),
            17u16 => Some(FamilyId::DeleteLink),
            18u16 => Some(FamilyId::GetLink),
            19u16 => Some(FamilyId::SetLink),
            _ => None,
        }
    }

    fn convert_from(value: u16) -> (r: Option<FamilyId>) {
        match value {
            16u16 => Some(FamilyId::NewLink),
            17u16 => Some(FamilyId::DeleteLink),
            18u16 => Some(FamilyId::GetLink),
            19u16 => Some(FamilyId::SetLink),
            _ => None,
        }
    }
}

/// A link dump request: the message type and its attributes.
pub struct Message {
    pub family: u16,
    pub attributes: Vec<Attribute>,
}

impl Message {
    /// A fresh request of message type `family` with no attributes.
    pub fn new(family: u16) -> (r: Message)
        ensures
            r.family == family,
            r.attributes@ =~= Seq::<Attribute>::empty(),
    {
        Message { family, attributes: Vec::new() }
    }
}

impl Sendable for Message {
    open spec fn write_ok(&self) -> bool {
        attrs_writable(self.attributes@)
    }

    open spec fn payload_bytes(&self) -> Seq<u8> {
        seq![AF_PACKET] + spec_attrs_bytes(self.attributes@)
    }

    open spec fn spec_message_type(&self) -> u16 {
        self.family
    }

    open spec fn spec_query_flags(&self) -> u16 {
        NLM_F_REQUEST | NLM_F_DUMP
    }

    fn write(&self, out: &mut Vec<u8>) -> (r: Result<(), Error>) {
        let mut i: usize = 0;
        while i < self.attributes.len()
            invariant
                i <= self.attributes@.len(),
                forall|j: int|
                    0 <= j < i ==> (#[trigger] self.attributes@[j].data@).len() + 4 <= u16::MAX,
            decreases self.attributes@.len() - i,
        {
            if self.attributes[i].data.len() > (u16::MAX - 4) as usize {
                return Err(Error::Truncated);
            }
            i = i + 1;
        }
        let ghost prior = out@;
        out.push(AF_PACKET);
        proof {
            assert(spec_attrs_bytes(self.attributes@.skip(0)) == spec_attrs_bytes(
                self.attributes@,
            )) by {
                assert(self.attributes@.skip(0) =~= self.attributes@);
            }
        }
        let mut k: usize = 0;
        while k < self.attributes.len()
            invariant
                k <= self.attributes@.len(),
                attrs_writable(self.attributes@),
                out@.len() >= 1,
                out@ =~= prior + seq![AF_PACKET] + spec_attrs_bytes(self.attributes@).take(
                    out@.len() as int - prior.len() as int - 1,
                ),
                spec_attrs_bytes(self.attributes@) =~= out@.skip(prior.len() as int + 1)
                    + spec_attrs_bytes(self.attributes@.skip(k as int)),
            decreases self.attributes@.len() - k,
        {
            let ghost before = out@;
            let attr = &self.attributes[k];
            attr.write(out);
            let pad = crate::align::netlink_padding(attr.data.len() + 4);
            let mut p: usize = 0;
            while p < pad
                invariant
                    p <= pad,
                    out@ =~= before + crate::attribute::spec_attr_encoding(
                        attr.identifier,
                        attr.data@,
                    ) + crate::generic::pad_zeros(p as int),
                decreases pad - p,
            {
                proof {
                    assert(crate::generic::pad_zeros(p + 1) =~= crate::generic::pad_zeros(
                        p as int,
                    ).push(0u8));
                }
                out.push(0u8);
                p = p + 1;
            }
            proof {
                let models = self.attributes@;
                assert(models.skip(k as int).drop_first() =~= models.skip(k + 1));
                let enc = crate::attribute::spec_attr_encoding(attr.identifier, attr.data@);
                crate::codec::lemma_le_pack_len(attr.data@.len() as int + 4, 2);
                crate::codec::lemma_le_pack_len(attr.identifier as int, 2);
                assert(enc.len() == attr.data@.len() + 4);
                assert(crate::generic::pad_zeros(pad as int) =~= crate::generic::pad_zeros(
                    crate::spec_align4(enc.len() as int) - enc.len(),
                ));
                assert(spec_attrs_bytes(models.skip(k as int)) == enc + crate::generic::pad_zeros(
                    crate::spec_align4(enc.len() as int) - enc.len(),
                ) + spec_attrs_bytes(models.skip(k + 1)));
                assert(out@.skip(prior.len() as int + 1) =~= before.skip(prior.len() as int + 1) + enc
                    + crate::generic::pad_zeros(pad as int));
                assert(spec_attrs_bytes(self.attributes@) =~= out@.skip(prior.len() as int + 1)
                    + spec_attrs_bytes(self.attributes@.skip(k + 1)));
                assert(out@ =~= prior + seq![AF_PACKET] + spec_attrs_bytes(self.attributes@).take(
                    out@.len() as int - prior.len() as int - 1,
                ));
            }
            k = k + 1;
        }
        proof {
            assert(spec_attrs_bytes(self.attributes@.skip(self.attributes@.len() as int))
                =~= Seq::<u8>::empty());
            assert(out@ =~= prior + (seq![AF_PACKET] + spec_attrs_bytes(self.attributes@)));
        }
        Ok(())
    }

    fn message_type(&self) -> (r: u16) {
        self.family
    }

    fn query_flags(&self) -> (r: u16) {
        NLM_F_REQUEST | NLM_F_DUMP
    }
}

/// A parsed link record: the fixed interface-information fields and
/// the attribute stream that follows them.
pub struct InterfaceInformationMessage {
    pub family: u8,
    pub kind: u16,
    pub index: i32,
    pub flags: u32,
    pub change: u32,
    pub attributes: Vec<Attribute>,
}

impl InterfaceInformationMessage {
    /// Parse a link record: family, a pad octet, type, index, flags
    /// and change mask, then the attributes.
    pub fn parse(buffer: &[u8]) -> (r: Result<InterfaceInformationMessage, Error>)
        ensures
            r is Ok <==> buffer@.len() >= 16,
            r is Err ==> r == Err::<InterfaceInformationMessage, Error>(Error::Truncated),
            r matches Ok(m) ==> m.family == buffer@[0] && m.kind as int == le_unpack(
                buffer@.subrange(2, 4),
            ) && m.index as int == as_signed(le_unpack(buffer@.subrange(4, 8)), 4) && m.flags as int
                == le_unpack(buffer@.subrange(8, 12)) && m.change as int == le_unpack(
                buffer@.subrange(12, 16),
            ) && attr_models(m.attributes@) == spec_parse_attrs(buffer@.skip(16)),
    {
        let mut pos: usize = 0;
        if buffer.len() < 16 {
            return Err(Error::Truncated);
        }
        let family = match u8::read(buffer, &mut pos) {
            Ok(v) => v,
            Err(e) => {
                return Err(e);
            },
        };
        let _pad = match u8::read(buffer, &mut pos) {
            Ok(v) => v,
            Err(e) => {
                return Err(e);
            },
        };
        let kind = match u16::read(buffer, &mut pos) {
            Ok(v) => v,
            Err(e) => {
                return Err(e);
            },
        };
        let index = match i32::read(buffer, &mut pos) {
            Ok(v) => v,
            Err(e) => {
                return Err(e);
            },
        };
        let flags = match u32::read(buffer, &mut pos) {
            Ok(v) => v,
            Err(e) => {
                return Err(e);
            },
        };
        let change = match u32::read(buffer, &mut pos) {
            Ok(v) => v,
            Err(e) => {
                return Err(e);
            },
        };
        let rest = vstd::slice::slice_subrange(buffer, pos, buffer.len());
        proof {
            assert(buffer@.skip(0).take(1) =~= buffer@.subrange(0, 1));
            assert(buffer@.skip(2).take(2) =~= buffer@.subrange(2, 4));
            assert(buffer@.skip(4).take(4) =~= buffer@.subrange(4, 8));
            assert(buffer@.skip(8).take(4) =~= buffer@.subrange(8, 12));
            assert(buffer@.skip(12).take(4) =~= buffer@.subrange(12, 16));
            assert(rest@ =~= buffer@.skip(16));
            crate::codec::lemma_le_unpack1(buffer@.subrange(0, 1));
        }
        let attributes = parse_attributes(rest);
        Ok(InterfaceInformationMessage { family, kind, index, flags, change, attributes })
    }
}

} // verus!
