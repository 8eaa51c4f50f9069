//! Reading, writing and parsing fixed-width values.
//!
//! `NativeRead` consumes a value from a buffer at a running position,
//! `NativeParse` decodes one from the front of a slice, and
//! `NativeWrite` appends the encoding to a buffer. All three use the
//! same explicit little-endian order as [`crate::codec`].

use vstd::prelude::*;
use vstd::slice::slice_subrange;
use vstd::string::StringSliceAdditionalSpecFns;
use vstd::utf8::encode_utf8;
use crate::codec::{le_pack, to_unsigned, put_u8, put_u16, put_u32, put_u64, i8_as_u8, i16_as_u16,
    i32_as_u32, i64_as_u64};
use crate::error::Error;
use crate::hardware_address::HardwareAddress;
use crate::unpack::LittleUnpack;

verus! {

/// Read one value from `buffer` at `*pos`, advancing `*pos` past it.
pub fn read_value<T: LittleUnpack>(buffer: &[u8], pos: &mut usize) -> (r: Result<T, Error>)
    ensures
        r is Ok <==> *old(pos) + T::unpack_size() <= buffer@.len(),
        r is Err ==> r == Err::<T, Error>(Error::Truncated) && *final(pos) == *old(pos),
        r matches Ok(v) ==> *final(pos) as nat == *old(pos) + T::unpack_size() && T::unpack_rel(
            buffer@.skip(*old(pos) as int),
            v,
        ),
{
    let n: usize = T::octet_size();
    if *pos <= buffer.len() && buffer.len() - *pos >= n {
        let sub = slice_subrange(buffer, *pos, buffer.len());
        let v = T::unpack_unchecked(sub);
        proof {
            assert(sub@ =~= buffer@.skip(*pos as int));
        }
        *pos = *pos + n;
        Ok(v)
    } else {
        Err(Error::Truncated)
    }
}

/// Consume a value from a buffer at a running position.
pub trait NativeRead: Sized {
    /// Number of octets a value occupies.
    spec fn read_size() -> nat;

    /// What it means for `r` to be the value read from the front of `data`.
    spec fn read_rel(data: Seq<u8>, r: Self) -> bool;

    /// Read the value at `*pos` and advance `*pos` past it.
    fn read(buffer: &[u8], pos: &mut usize) -> (r: Result<Self, Error>)
        ensures
            r is Ok <==> *old(pos) + Self::read_size() <= buffer@.len(),
            r is Err ==> r == Err::<Self, Error>(Error::Truncated) && *final(pos) == *old(pos),
            r matches Ok(v) ==> *final(pos) as nat == *old(pos) + Self::read_size()
                && Self::read_rel(buffer@.skip(*old(pos) as int), v),
    ;
}

/// Decode a value from the front of a slice.
pub trait NativeParse: Sized {
    /// Number of octets a value occupies.
    spec fn parse_size() -> nat;

    /// What it means for `r` to be the value read from the front of `data`.
    spec fn parse_rel(data: Seq<u8>, r: Self) -> bool;

    /// Decode, failing on a short buffer.
    fn parse(buffer: &[u8]) -> (r: Result<Self, Error>)
        ensures
            r is Ok <==> Self::parse_size() <= buffer@.len(),
            r is Err ==> r == Err::<Self, Error>(Error::Truncated),
            r matches Ok(v) ==> Self::parse_rel(buffer@, v),
    ;
}

/// Append the encoding of a value to a buffer.
pub trait NativeWrite: Sized {
    /// The octets the value is written as.
    spec fn wire_bytes(&self) -> Seq<u8>;

    /// Append the encoding of `self` to `out`.
    fn write(&self, out: &mut Vec<u8>)
        ensures
            final(out)@ =~= old(out)@ + self.wire_bytes(),
    ;
}

/// A value whose wire size is not fixed by its type: reading takes an
/// explicit octet count and writing reports its own failure.
pub trait MultiValue: Sized {
    /// Whether `data` decodes to a value.
    spec fn read_ok(data: Seq<u8>) -> bool;

    /// What it means for `r` to be the value decoded from `data`.
    spec fn read_rel(data: Seq<u8>, r: Self) -> bool;

    /// Whether the value can be written at all.
    spec fn spec_write_ok(&self) -> bool;

    /// The octets the value is written as.
    spec fn value_bytes(&self) -> Seq<u8>;

    /// Decode the first `size` octets of `buffer`.
    fn read(buffer: &[u8], size: usize) -> (r: Result<Self, Error>)
        ensures
            size <= buffer@.len() ==> (r is Ok <==> Self::read_ok(buffer@.take(size as int))),
            size > buffer@.len() ==> r == Err::<Self, Error>(Error::Truncated),
            r matches Ok(v) ==> Self::read_rel(buffer@.take(size as int), v),
    ;

    /// Append the encoding of the value to `out`.
    fn write(&self, out: &mut Vec<u8>) -> (r: Result<(), Error>)
        ensures
            r is Ok <==> self.spec_write_ok(),
            r is Ok ==> final(out)@ =~= old(out)@ + self.value_bytes(),
            r is Err ==> final(out)@ == old(out)@,
    ;

    /// The octets the value occupies when written.
    fn size(&self) -> (r: usize)
        requires
            self.value_bytes().len() <= usize::MAX,
        ensures
            r == self.value_bytes().len(),
    ;
}

impl MultiValue for String {
    open spec fn read_ok(data: Seq<u8>) -> bool {
        crate::strings::spec_read_string(data) is Some
    }

    open spec fn read_rel(data: Seq<u8>, r: String) -> bool {
        crate::strings::spec_read_string(data) == Some(r@)
    }

    open spec fn spec_write_ok(&self) -> bool {
        !encode_utf8(self@).contains(0u8)
    }

    open spec fn value_bytes(&self) -> Seq<u8> {
        crate::strings::spec_string_bytes(self@)
    }

    fn read(buffer: &[u8], size: usize) -> (r: Result<String, Error>) {
        if size > buffer.len() {
            return Err(Error::Truncated);
        }
        let head = slice_subrange(buffer, 0, size);
        proof {
            assert(head@ =~= buffer@.take(size as int));
        }
        crate::strings::read_string(head)
    }

    fn write(&self, out: &mut Vec<u8>) -> (r: Result<(), Error>) {
        crate::strings::write_string(self.as_str(), out)
    }

    fn size(&self) -> (r: usize) {
        self.as_str().len() + 1
    }
}

/// Decoding the written octets of a `u8` gives the value back.
pub proof fn lemma_u8_round_trip(v: u8)
    ensures
        <u8 as LittleUnpack>::unpack_rel(<u8 as NativeWrite>::wire_bytes(&v), v),
{
    crate::codec::lemma_pow256_values();
    crate::codec::lemma_le_round_trip(v as int, 1);
    assert(le_pack(v as int, 1).take(1) =~= le_pack(v as int, 1));
}

/// Decoding the written octets of a `u16` gives the value back.
pub proof fn lemma_u16_round_trip(v: u16)
    ensures
        <u16 as LittleUnpack>::unpack_rel(<u16 as NativeWrite>::wire_bytes(&v), v),
{
    crate::codec::lemma_pow256_values();
    crate::codec::lemma_le_round_trip(v as int, 2);
    assert(le_pack(v as int, 2).take(2) =~= le_pack(v as int, 2));
}

/// Decoding the written octets of a `u32` gives the value back.
pub proof fn lemma_u32_round_trip(v: u32)
    ensures
        <u32 as LittleUnpack>::unpack_rel(<u32 as NativeWrite>::wire_bytes(&v), v),
{
    crate::codec::lemma_pow256_values();
    crate::codec::lemma_le_round_trip(v as int, 4);
    assert(le_pack(v as int, 4).take(4) =~= le_pack(v as int, 4));
}

/// Decoding the written octets of a `u64` gives the value back.
pub proof fn lemma_u64_round_trip(v: u64)
    ensures
        <u64 as LittleUnpack>::unpack_rel(<u64 as NativeWrite>::wire_bytes(&v), v),
{
    crate::codec::lemma_pow256_values();
    crate::codec::lemma_le_round_trip(v as int, 8);
    assert(le_pack(v as int, 8).take(8) =~= le_pack(v as int, 8));
}

/// Decoding the written octets of an `i8` gives the value back.
pub proof fn lemma_i8_round_trip(v: i8)
    ensures
        <i8 as LittleUnpack>::unpack_rel(<i8 as NativeWrite>::wire_bytes(&v), v),
{
    crate::codec::lemma_pow256_values();
    crate::codec::lemma_signed_round_trip(v as int, 1);
    crate::codec::lemma_le_round_trip(to_unsigned(v as int, 1), 1);
    assert(le_pack(to_unsigned(v as int, 1), 1).take(1) =~= le_pack(to_unsigned(v as int, 1), 1));
}

/// Decoding the written octets of an `i16` gives the value back.
pub proof fn lemma_i16_round_trip(v: i16)
    ensures
        <i16 as LittleUnpack>::unpack_rel(<i16 as NativeWrite>::wire_bytes(&v), v),
{
    crate::codec::lemma_pow256_values();
    crate::codec::lemma_signed_round_trip(v as int, 2);
    crate::codec::lemma_le_round_trip(to_unsigned(v as int, 2), 2);
    assert(le_pack(to_unsigned(v as int, 2), 2).take(2) =~= le_pack(to_unsigned(v as int, 2), 2));
}

/// Decoding the written octets of an `i32` gives the value back.
pub proof fn lemma_i32_round_trip(v: i32)
    ensures
        <i32 as LittleUnpack>::unpack_rel(<i32 as NativeWrite>::wire_bytes(&v), v),
{
    crate::codec::lemma_pow256_values();
    crate::codec::lemma_signed_round_trip(v as int, 4);
    crate::codec::lemma_le_round_trip(to_unsigned(v as int, 4), 4);
    assert(le_pack(to_unsigned(v as int, 4), 4).take(4) =~= le_pack(to_unsigned(v as int, 4), 4));
}

/// Decoding the written octets of an `i64` gives the value back.
pub proof fn lemma_i64_round_trip(v: i64)
    ensures
        <i64 as LittleUnpack>::unpack_rel(<i64 as NativeWrite>::wire_bytes(&v), v),
{
    crate::codec::lemma_pow256_values();
    crate::codec::lemma_signed_round_trip(v as int, 8);
    crate::codec::lemma_le_round_trip(to_unsigned(v as int, 8), 8);
    assert(le_pack(to_unsigned(v as int, 8), 8).take(8) =~= le_pack(to_unsigned(v as int, 8), 8));
}

/// Decoding the written octets of a hardware address gives the
/// address back.
pub proof fn lemma_hardware_address_round_trip(a: HardwareAddress)
    ensures
        <HardwareAddress as LittleUnpack>::unpack_rel(
            <HardwareAddress as NativeWrite>::wire_bytes(&a),
            a,
        ),
{
    HardwareAddress::lemma_len(&a);
    assert(a@.take(6) =~= a@);
}

impl NativeRead for u8 {
    open spec fn read_size() -> nat {
        <u8 as LittleUnpack>::unpack_size()
    }

    open spec fn read_rel(data: Seq<u8>, r: u8) -> bool {
        <u8 as LittleUnpack>::unpack_rel(data, r)
    }

    fn read(buffer: &[u8], pos: &mut usize) -> (r: Result<u8, Error>) {
        read_value::<u8>(buffer, pos)
    }
}

impl NativeRead for u16 {
    open spec fn read_size() -> nat {
        <u16 as LittleUnpack>::unpack_size()
    }

    open spec fn read_rel(data: Seq<u8>, r: u16) -> bool {
        <u16 as LittleUnpack>::unpack_rel(data, r)
    }

    fn read(buffer: &[u8], pos: &mut usize) -> (r: Result<u16, Error>) {
        read_value::<u16>(buffer, pos)
    }
}

impl NativeRead for u32 {
    open spec fn read_size() -> nat {
        <u32 as LittleUnpack>::unpack_size()
    }

    open spec fn read_rel(data: Seq<u8>, r: u32) -> bool {
        <u32 as LittleUnpack>::unpack_rel(data, r)
    }

    fn read(buffer: &[u8], pos: &mut usize) -> (r: Result<u32, Error>) {
        read_value::<u32>(buffer, pos)
    }
}

impl NativeRead for u64 {
    open spec fn read_size() -> nat {
        <u64 as LittleUnpack>::unpack_size()
    }

    open spec fn read_rel(data: Seq<u8>, r: u64) -> bool {
        <u64 as LittleUnpack>::unpack_rel(data, r)
    }

    fn read(buffer: &[u8], pos: &mut usize) -> (r: Result<u64, Error>) {
        read_value::<u64>(buffer, pos)
    }
}

impl NativeRead for i8 {
    open spec fn read_size() -> nat {
        <i8 as LittleUnpack>::unpack_size()
    }

    open spec fn read_rel(data: Seq<u8>, r: i8) -> bool {
        <i8 as LittleUnpack>::unpack_rel(data, r)
    }

    fn read(buffer: &[u8], pos: &mut usize) -> (r: Result<i8, Error>) {
        read_value::<i8>(buffer, pos)
    }
}

impl NativeRead for i16 {
    open spec fn read_size() -> nat {
        <i16 as LittleUnpack>::unpack_size()
    }

    open spec fn read_rel(data: Seq<u8>, r: i16) -> bool {
        <i16 as LittleUnpack>::unpack_rel(data, r)
    }

    fn read(buffer: &[u8], pos: &mut usize) -> (r: Result<i16, Error>) {
        read_value::<i16>(buffer, pos)
    }
}

impl NativeRead for i32 {
    open spec fn read_size() -> nat {
        <i32 as LittleUnpack>::unpack_size()
    }

    open spec fn read_rel(data: Seq<u8>, r: i32) -> bool {
        <i32 as LittleUnpack>::unpack_rel(data, r)
    }

    fn read(buffer: &[u8], pos: &mut usize) -> (r: Result<i32, Error>) {
        read_value::<i32>(buffer, pos)
    }
}

impl NativeRead for i64 {
    open spec fn read_size() -> nat {
        <i64 as LittleUnpack>::unpack_size()
    }

    open spec fn read_rel(data: Seq<u8>, r: i64) -> bool {
        <i64 as LittleUnpack>::unpack_rel(data, r)
    }

    fn read(buffer: &[u8], pos: &mut usize) -> (r: Result<i64, Error>) {
        read_value::<i64>(buffer, pos)
    }
}

impl NativeRead for HardwareAddress {
    open spec fn read_size() -> nat {
        <HardwareAddress as LittleUnpack>::unpack_size()
    }

    open spec fn read_rel(data: Seq<u8>, r: HardwareAddress) -> bool {
        <HardwareAddress as LittleUnpack>::unpack_rel(data, r)
    }

    fn read(buffer: &[u8], pos: &mut usize) -> (r: Result<HardwareAddress, Error>) {
        read_value::<HardwareAddress>(buffer, pos)
    }
}

impl NativeParse for u8 {
    open spec fn parse_size() -> nat {
        <u8 as LittleUnpack>::unpack_size()
    }

    open spec fn parse_rel(data: Seq<u8>, r: u8) -> bool {
        <u8 as LittleUnpack>::unpack_rel(data, r)
    }

    fn parse(buffer: &[u8]) -> (r: Result<u8, Error>) {
        <u8 as LittleUnpack>::unpack(buffer)
    }
}

impl NativeParse for u16 {
    open spec fn parse_size() -> nat {
        <u16 as LittleUnpack>::unpack_size()
    }

    open spec fn parse_rel(data: Seq<u8>, r: u16) -> bool {
        <u16 as LittleUnpack>::unpack_rel(data, r)
    }

    fn parse(buffer: &[u8]) -> (r: Result<u16, Error>) {
        <u16 as LittleUnpack>::unpack(buffer)
    }
}

impl NativeParse for u32 {
    open spec fn parse_size() -> nat {
        <u32 as LittleUnpack>::unpack_size()
    }

    open spec fn parse_rel(data: Seq<u8>, r: u32) -> bool {
        <u32 as LittleUnpack>::unpack_rel(data, r)
    }

    fn parse(buffer: &[u8]) -> (r: Result<u32, Error>) {
        <u32 as LittleUnpack>::unpack(buffer)
    }
}

impl NativeParse for u64 {
    open spec fn parse_size() -> nat {
        <u64 as LittleUnpack>::unpack_size()
    }

    open spec fn parse_rel(data: Seq<u8>, r: u64) -> bool {
        <u64 as LittleUnpack>::unpack_rel(data, r)
    }

    fn parse(buffer: &[u8]) -> (r: Result<u64, Error>) {
        <u64 as LittleUnpack>::unpack(buffer)
    }
}

impl NativeParse for i8 {
    open spec fn parse_size() -> nat {
        <i8 as LittleUnpack>::unpack_size()
    }

    open spec fn parse_rel(data: Seq<u8>, r: i8) -> bool {
        <i8 as LittleUnpack>::unpack_rel(data, r)
    }

    fn parse(buffer: &[u8]) -> (r: Result<i8, Error>) {
        <i8 as LittleUnpack>::unpack(buffer)
    }
}

impl NativeParse for i16 {
    open spec fn parse_size() -> nat {
        <i16 as LittleUnpack>::unpack_size()
    }

    open spec fn parse_rel(data: Seq<u8>, r: i16) -> bool {
        <i16 as LittleUnpack>::unpack_rel(data, r)
    }

    fn parse(buffer: &[u8]) -> (r: Result<i16, Error>) {
        <i16 as LittleUnpack>::unpack(buffer)
    }
}

impl NativeParse for i32 {
    open spec fn parse_size() -> nat {
        <i32 as LittleUnpack>::unpack_size()
    }

    open spec fn parse_rel(data: Seq<u8>, r: i32) -> bool {
        <i32 as LittleUnpack>::unpack_rel(data, r)
    }

    fn parse(buffer: &[u8]) -> (r: Result<i32, Error>) {
        <i32 as LittleUnpack>::unpack(buffer)
    }
}

impl NativeParse for i64 {
    open spec fn parse_size() -> nat {
        <i64 as LittleUnpack>::unpack_size()
    }

    open spec fn parse_rel(data: Seq<u8>, r: i64) -> bool {
        <i64 as LittleUnpack>::unpack_rel(data, r)
    }

    fn parse(buffer: &[u8]) -> (r: Result<i64, Error>) {
        <i64 as LittleUnpack>::unpack(buffer)
    }
}

impl NativeParse for HardwareAddress {
    open spec fn parse_size() -> nat {
        <HardwareAddress as LittleUnpack>::unpack_size()
    }

    open spec fn parse_rel(data: Seq<u8>, r: HardwareAddress) -> bool {
        <HardwareAddress as LittleUnpack>::unpack_rel(data, r)
    }

    fn parse(buffer: &[u8]) -> (r: Result<HardwareAddress, Error>) {
        <HardwareAddress as LittleUnpack>::unpack(buffer)
    }
}

impl NativeWrite for u8 {
    open spec fn wire_bytes(&self) -> Seq<u8> {
        le_pack(*self as int, 1)
    }

    fn write(&self, out: &mut Vec<u8>) {
        put_u8(out, *self);
    }
}

impl NativeWrite for u16 {
    open spec fn wire_bytes(&self) -> Seq<u8> {
        le_pack(*self as int, 2)
    }

    fn write(&self, out: &mut Vec<u8>) {
        put_u16(out, *self);
    }
}

impl NativeWrite for u32 {
    open spec fn wire_bytes(&self) -> Seq<u8> {
        le_pack(*self as int, 4)
    }

    fn write(&self, out: &mut Vec<u8>) {
        put_u32(out, *self);
    }
}

impl NativeWrite for u64 {
    open spec fn wire_bytes(&self) -> Seq<u8> {
        le_pack(*self as int, 8)
    }

    fn write(&self, out: &mut Vec<u8>) {
        put_u64(out, *self);
    }
}

impl NativeWrite for i8 {
    open spec fn wire_bytes(&self) -> Seq<u8> {
        le_pack(to_unsigned(*self as int, 1), 1)
    }

    fn write(&self, out: &mut Vec<u8>) {
        put_u8(out, i8_as_u8(*self));
    }
}

impl NativeWrite for i16 {
    open spec fn wire_bytes(&self) -> Seq<u8> {
        le_pack(to_unsigned(*self as int, 2), 2)
    }

    fn write(&self, out: &mut Vec<u8>) {
        put_u16(out, i16_as_u16(*self));
    }
}

impl NativeWrite for i32 {
    open spec fn wire_bytes(&self) -> Seq<u8> {
        le_pack(to_unsigned(*self as int, 4), 4)
    }

    fn write(&self, out: &mut Vec<u8>) {
        put_u32(out, i32_as_u32(*self));
    }
}

impl NativeWrite for i64 {
    open spec fn wire_bytes(&self) -> Seq<u8> {
        le_pack(to_unsigned(*self as int, 8), 8)
    }

    fn write(&self, out: &mut Vec<u8>) {
        put_u64(out, i64_as_u64(*self));
    }
}

impl NativeWrite for HardwareAddress {
    open spec fn wire_bytes(&self) -> Seq<u8> {
        self@
    }

    fn write(&self, out: &mut Vec<u8>) {
        let octets = self.bytes();
        out.push(octets[0]);
        out.push(octets[1]);
        out.push(octets[2]);
        out.push(octets[3]);
        out.push(octets[4]);
        out.push(octets[5]);
        proof {
            HardwareAddress::lemma_len(self);
            assert(out@ =~= old(out)@ + self@);
        }
    }
}

} // verus!
