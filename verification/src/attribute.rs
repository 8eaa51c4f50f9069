//! The netlink attribute (TLV) codec.
//!
//! On the wire an attribute is `{length: u16, identifier: u16, payload}`
//! where `length` counts the four header octets plus the payload, and
//! the next attribute starts at the next four-byte boundary.

use vstd::prelude::*;
use vstd::slice::{slice_subrange, slice_to_vec};
use vstd::string::StringSliceAdditionalSpecFns;
use crate::align::netlink_align;
use crate::codec::{le_unpack, le_pack, get_u16_at, lemma_le_round_trip, lemma_pow256_values};
use crate::error::Error;
use crate::hardware_address::HardwareAddress;
use crate::spec_align4;
use crate::variant::{NativeParse, NativeWrite};

verus! {

/// One netlink attribute: an identifier and its payload octets.
#[derive(Debug)]
pub struct Attribute {
    pub identifier: u16,
    pub data: Vec<u8>,
}

/// The declared length field at the front of an encoded attribute.
pub open spec fn attr_declared_len(b: Seq<u8>) -> int {
    le_unpack(b.subrange(0, 2))
}

/// Whether the front of `b` is a well-formed attribute: four header
/// octets present, and a declared length that covers the header and
/// does not run past the buffer.
pub open spec fn attr_head_ok(b: Seq<u8>) -> bool {
    b.len() >= 4 && 4 <= attr_declared_len(b) <= b.len()
}

/// The identifier of the attribute at the front of `b`.
pub open spec fn attr_id(b: Seq<u8>) -> int {
    le_unpack(b.subrange(2, 4))
}

/// The payload of the attribute at the front of `b`.
pub open spec fn attr_payload(b: Seq<u8>) -> Seq<u8> {
    b.subrange(4, attr_declared_len(b))
}

/// The stride to the next attribute: the declared length, aligned.
pub open spec fn attr_stride(b: Seq<u8>) -> int {
    spec_align4(attr_declared_len(b))
}

/// The encoding that `write` produces: length, identifier, payload,
/// without trailing padding.
pub open spec fn spec_attr_encoding(identifier: u16, data: Seq<u8>) -> Seq<u8> {
    le_pack(data.len() as int + 4, 2) + le_pack(identifier as int, 2) + data
}

/// The attribute models of a parsed attribute sequence.
pub open spec fn attr_models(attrs: Seq<Attribute>) -> Seq<(int, Seq<u8>)> {
    attrs.map(|i: int, a: Attribute| (a.identifier as int, a.data@))
}

/// The attributes laid head to tail in `b`, as `(identifier, payload)`
/// pairs. Parsing stops at the first malformed or truncated remainder.
pub open spec fn spec_parse_attrs(b: Seq<u8>) -> Seq<(int, Seq<u8>)>
    decreases b.len(),
{
    if attr_head_ok(b) {
        if attr_stride(b) < b.len() {
            seq![(attr_id(b), attr_payload(b))] + spec_parse_attrs(b.skip(attr_stride(b)))
        } else {
            seq![(attr_id(b), attr_payload(b))]
        }
    } else {
        Seq::empty()
    }
}

impl Attribute {
    /// Build an attribute whose payload is the encoding of `value`.
    pub fn new<V: NativeWrite>(identifier: u16, value: &V) -> (r: Attribute)
        ensures
            r.identifier == identifier,
            r.data@ == value.wire_bytes(),
    {
        let mut data: Vec<u8> = Vec::new();
        value.write(&mut data);
        proof {
            assert(data@ =~= value.wire_bytes());
        }
        Attribute { identifier, data }
    }

    /// Build a string attribute: the text's UTF-8 octets followed by
    /// one terminating NUL. The text itself may not contain a NUL.
    pub fn new_string(identifier: u16, value: &str) -> (r: Attribute)
        requires
            !value.spec_bytes().contains(0u8),
        ensures
            r.identifier == identifier,
            r.data@ == crate::strings::spec_string_bytes(value@),
    {
        let mut data: Vec<u8> = Vec::new();
        let ok = crate::strings::write_string(value, &mut data);
        proof {
            assert(ok is Ok);
            assert(data@ =~= crate::strings::spec_string_bytes(value@));
        }
        Attribute { identifier, data }
    }

    /// The payload length.
    pub fn len(&self) -> (r: u16)
        requires
            self.data@.len() <= u16::MAX,
        ensures
            r == self.data@.len(),
    {
        self.data.len() as u16
    }

    /// The octets the attribute occupies on the wire, padding included.
    pub fn total_len(&self) -> (r: usize)
        requires
            self.data@.len() + 7 <= usize::MAX,
        ensures
            r == spec_align4(self.data@.len() as int + 4),
    {
        netlink_align(self.data.len() + 4)
    }

    /// Parse the attribute at the front of `buffer`.
    ///
    /// Fails when fewer than four octets are present, when the declared
    /// length is smaller than the four-octet header, or when it runs
    /// past the buffer. On success also returns the stride to the next
    /// attribute: the declared length rounded up to a multiple of four,
    /// which may point past the end of the buffer for the last
    /// attribute.
    pub fn parse(buffer: &[u8]) -> (r: Result<(Attribute, usize), Error>)
        ensures
            r is Ok <==> attr_head_ok(buffer@),
            r is Err ==> r == Err::<(Attribute, usize), Error>(Error::Truncated),
            r matches Ok((attr, stride)) ==> attr.identifier as int == attr_id(buffer@)
                && attr.data@ == attr_payload(buffer@) && stride as int == attr_stride(buffer@),
    {
        if buffer.len() < 4 {
            return Err(Error::Truncated);
        }
        let declared = get_u16_at(buffer, 0) as usize;
        if declared < 4 || declared > buffer.len() {
            return Err(Error::Truncated);
        }
        let identifier = get_u16_at(buffer, 2);
        let data = slice_to_vec(slice_subrange(buffer, 4, declared));
        let stride = netlink_align(declared);
        Ok((Attribute { identifier, data }, stride))
    }

    /// Append the wire encoding: length, identifier, payload. Padding
    /// between attributes is the framing layer's task.
    pub fn write(&self, out: &mut Vec<u8>)
        requires
            self.data@.len() + 4 <= u16::MAX,
        ensures
            final(out)@ =~= old(out)@ + spec_attr_encoding(self.identifier, self.data@),
    {
        let length: u16 = self.data.len() as u16 + 4;
        length.write(out);
        self.identifier.write(out);
        let mut i: usize = 0;
        while i < self.data.len()
            invariant
                i <= self.data@.len(),
                out@ =~= old(out)@ + le_pack(self.data@.len() as int + 4, 2) + le_pack(
                    self.identifier as int,
                    2,
                ) + self.data@.take(i as int),
            decreases self.data@.len() - i,
        {
            out.push(self.data[i]);
            i = i + 1;
        }
        proof {
            assert(self.data@.take(self.data@.len() as int) =~= self.data@);
        }
    }

    /// The payload read as a one-octet value.
    pub fn as_u8(&self) -> (r: Result<u8, Error>)
        ensures
            r is Ok <==> self.data@.len() >= 1,
            r is Err ==> r == Err::<u8, Error>(Error::Truncated),
            r matches Ok(v) ==> v as int == le_unpack(self.data@.take(1)),
    {
        u8::parse(self.data.as_slice())
    }

    /// The payload read as a little-endian two-octet value.
    pub fn as_u16(&self) -> (r: Result<u16, Error>)
        ensures
            r is Ok <==> self.data@.len() >= 2,
            r is Err ==> r == Err::<u16, Error>(Error::Truncated),
            r matches Ok(v) ==> v as int == le_unpack(self.data@.take(2)),
    {
        u16::parse(self.data.as_slice())
    }

    /// The payload read as a little-endian four-octet value.
    pub fn as_u32(&self) -> (r: Result<u32, Error>)
        ensures
            r is Ok <==> self.data@.len() >= 4,
            r is Err ==> r == Err::<u32, Error>(Error::Truncated),
            r matches Ok(v) ==> v as int == le_unpack(self.data@.take(4)),
    {
        u32::parse(self.data.as_slice())
    }

    /// The payload read as a little-endian signed four-octet value.
    pub fn as_i32(&self) -> (r: Result<i32, Error>)
        ensures
            r is Ok <==> self.data@.len() >= 4,
            r is Err ==> r == Err::<i32, Error>(Error::Truncated),
            r matches Ok(v) ==> v as int == crate::codec::as_signed(
                le_unpack(self.data@.take(4)),
                4,
            ),
    {
        i32::parse(self.data.as_slice())
    }

    /// The payload read as a little-endian eight-octet value.
    pub fn as_u64(&self) -> (r: Result<u64, Error>)
        ensures
            r is Ok <==> self.data@.len() >= 8,
            r is Err ==> r == Err::<u64, Error>(Error::Truncated),
            r matches Ok(v) ==> v as int == le_unpack(self.data@.take(8)),
    {
        u64::parse(self.data.as_slice())
    }

    /// The payload read as a hardware address.
    pub fn as_hardware_address(&self) -> (r: Result<HardwareAddress, Error>)
        ensures
            r is Ok <==> self.data@.len() >= 6,
            r is Err ==> r == Err::<HardwareAddress, Error>(Error::Truncated),
            r matches Ok(v) ==> v@ == self.data@.take(6),
    {
        HardwareAddress::parse(self.data.as_slice())
    }

    /// The payload read as text: trailing NUL padding is dropped and
    /// the rest must be valid UTF-8.
    pub fn as_string(&self) -> (r: Result<String, Error>)
        ensures
            r is Ok <==> crate::strings::spec_read_string(self.data@) is Some,
            r is Err ==> r == Err::<String, Error>(Error::Utf8),
            r matches Ok(s) ==> s@ == crate::strings::spec_read_string(self.data@).unwrap(),
    {
        crate::strings::read_string(self.data.as_slice())
    }

    /// A copy of the raw payload octets.
    pub fn as_bytes(&self) -> (r: Vec<u8>)
        ensures
            r@ == self.data@,
    {
        slice_to_vec(self.data.as_slice())
    }
}

/// Parse every attribute laid head to tail in `buffer`.
///
/// A trailing short or malformed remainder ends the list without an
/// error: kernel attribute streams are well-formed by construction and
/// a partial tail only arises on truncated captures.
pub fn parse_attributes(buffer: &[u8]) -> (r: Vec<Attribute>)
    ensures
        attr_models(r@) =~= spec_parse_attrs(buffer@),
{
    let mut attrs: Vec<Attribute> = Vec::new();
    let mut pos: usize = 0;
    let mut done: bool = false;
    proof {
        assert(buffer@.skip(0) =~= buffer@);
        assert(attr_models(attrs@) =~= Seq::<(int, Seq<u8>)>::empty());
    }
    while !done
        invariant
            pos <= buffer@.len(),
            !done ==> spec_parse_attrs(buffer@) =~= attr_models(attrs@) + spec_parse_attrs(
                buffer@.skip(pos as int),
            ),
            done ==> attr_models(attrs@) =~= spec_parse_attrs(buffer@),
        decreases buffer@.len() - pos + (if done { 0int } else { 1int }),
    {
        let sub = slice_subrange(buffer, pos, buffer.len());
        let ghost prev = attrs@;
        match Attribute::parse(sub) {
            Ok((attr, stride)) => {
                proof {
                    assert(attr_models(prev.push(attr)) =~= attr_models(prev) + seq![
                        (attr.identifier as int, attr.data@),
                    ]);
                }
                attrs.push(attr);
                if stride < buffer.len() - pos {
                    proof {
                        assert(buffer@.skip(pos as int).skip(stride as int) =~= buffer@.skip(
                            pos + stride,
                        ));
                    }
                    pos = pos + stride;
                } else {
                    done = true;
                }
            },
            Err(_) => {
                done = true;
            },
        }
    }
    attrs
}

/// Parse a payload that holds an array of nested attribute lists: each
/// top-level attribute's payload is itself a sequence of attributes.
pub fn nested_attribute_array(buffer: &[u8]) -> (r: Vec<Vec<Attribute>>)
    ensures
        r@.len() == spec_parse_attrs(buffer@).len(),
        forall|i: int|
            0 <= i < r@.len() ==> attr_models(#[trigger] r@[i]@) =~= spec_parse_attrs(
                spec_parse_attrs(buffer@)[i].1,
            ),
{
    let entries = parse_attributes(buffer);
    let mut arrays: Vec<Vec<Attribute>> = Vec::new();
    let mut i: usize = 0;
    while i < entries.len()
        invariant
            i <= entries@.len(),
            attr_models(entries@) =~= spec_parse_attrs(buffer@),
            arrays@.len() == i,
            forall|j: int|
                0 <= j < i ==> attr_models(#[trigger] arrays@[j]@) =~= spec_parse_attrs(
                    spec_parse_attrs(buffer@)[j].1,
                ),
        decreases entries@.len() - i,
    {
        let inner = parse_attributes(entries[i].data.as_slice());
        arrays.push(inner);
        i = i + 1;
    }
    arrays
}

/// Parsing the written encoding gives the attribute back, consuming its
/// aligned length.
pub proof fn lemma_attr_round_trip(identifier: u16, data: Seq<u8>)
    requires
        data.len() + 4 <= u16::MAX,
    ensures
        attr_head_ok(spec_attr_encoding(identifier, data)),
        attr_id(spec_attr_encoding(identifier, data)) == identifier,
        attr_payload(spec_attr_encoding(identifier, data)) =~= data,
        attr_stride(spec_attr_encoding(identifier, data)) == spec_align4(data.len() as int + 4),
{
    let enc = spec_attr_encoding(identifier, data);
    lemma_pow256_values();
    lemma_le_round_trip(data.len() as int + 4, 2);
    lemma_le_round_trip(identifier as int, 2);
    assert(enc.subrange(0, 2) =~= le_pack(data.len() as int + 4, 2));
    assert(enc.subrange(2, 4) =~= le_pack(identifier as int, 2));
}

} // verus!
