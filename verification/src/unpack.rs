//! Unpacking fixed-width values from byte slices.
//!
//! `LittleUnpack` is the slice-oriented decoder used by the 802.11
//! parsers: a checked `unpack`, a checked `unpack_with_size` that also
//! reports how many octets the value took, and an `unpack_unchecked`
//! for hot paths whose bounds were already established by the
//! enclosing framing.

use vstd::prelude::*;
use vstd::slice::slice_subrange;
use crate::codec::{le_unpack, as_signed, get_u8_at, get_u16_at, get_u32_at, get_u64_at, u8_as_i8,
    u16_as_i16, u32_as_i32, u64_as_i64};
use crate::error::Error;
use crate::hardware_address::HardwareAddress;

verus! {

/// Decode a value from the front of a byte slice, little-endian.
pub trait LittleUnpack: Sized {
    /// Number of octets the value occupies.
    spec fn unpack_size() -> nat;

    /// What it means for `r` to be the value read from the front of `data`.
    spec fn unpack_rel(data: Seq<u8>, r: Self) -> bool;

    /// `unpack_size`, as an executable value.
    fn octet_size() -> (r: usize)
        ensures
            r as nat == Self::unpack_size(),
    ;

    /// Decode without a bounds check; the caller has already checked.
    fn unpack_unchecked(buffer: &[u8]) -> (r: Self)
        requires
            Self::unpack_size() <= buffer@.len(),
        ensures
            Self::unpack_rel(buffer@, r),
    ;

    /// Decode, failing on a short buffer.
    fn unpack(buffer: &[u8]) -> (r: Result<Self, Error>)
        ensures
            r is Ok <==> Self::unpack_size() <= buffer@.len(),
            r is Err ==> r == Err::<Self, Error>(Error::Truncated),
            r matches Ok(v) ==> Self::unpack_rel(buffer@, v),
    ;

    /// Decode, failing on a short buffer, and report the octets used.
    fn unpack_with_size(buffer: &[u8]) -> (r: Result<(usize, Self), Error>)
        ensures
            r is Ok <==> Self::unpack_size() <= buffer@.len(),
            r is Err ==> r == Err::<(usize, Self), Error>(Error::Truncated),
            r matches Ok((s, v)) ==> s as nat == Self::unpack_size() && Self::unpack_rel(
                buffer@,
                v,
            ),
    ;
}

impl LittleUnpack for u8 {
    open spec fn unpack_size() -> nat {
        1
    }

    open spec fn unpack_rel(data: Seq<u8>, r: u8) -> bool {
        r as int == le_unpack(data.take(1))
    }

    fn octet_size() -> usize {
        1
    }

    fn unpack_unchecked(buffer: &[u8]) -> (r: u8) {
        let r = get_u8_at(buffer, 0);
        proof {
            assert(buffer@.take(1) =~= buffer@.subrange(0, 1));
        }
        r
    }

    fn unpack(buffer: &[u8]) -> (r: Result<u8, Error>) {
        if buffer.len() >= 1 {
            Ok(Self::unpack_unchecked(buffer))
        } else {
            Err(Error::Truncated)
        }
    }

    fn unpack_with_size(buffer: &[u8]) -> (r: Result<(usize, u8), Error>) {
        if buffer.len() >= 1 {
            Ok((1, Self::unpack_unchecked(buffer)))
        } else {
            Err(Error::Truncated)
        }
    }
}

impl LittleUnpack for u16 {
    open spec fn unpack_size() -> nat {
        2
    }

    open spec fn unpack_rel(data: Seq<u8>, r: u16) -> bool {
        r as int == le_unpack(data.take(2))
    }

    fn octet_size() -> usize {
        2
    }

    fn unpack_unchecked(buffer: &[u8]) -> (r: u16) {
        let r = get_u16_at(buffer, 0);
        proof {
            assert(buffer@.take(2) =~= buffer@.subrange(0, 2));
        }
        r
    }

    fn unpack(buffer: &[u8]) -> (r: Result<u16, Error>) {
        if buffer.len() >= 2 {
            Ok(Self::unpack_unchecked(buffer))
        } else {
            Err(Error::Truncated)
        }
    }

    fn unpack_with_size(buffer: &[u8]) -> (r: Result<(usize, u16), Error>) {
        if buffer.len() >= 2 {
            Ok((2, Self::unpack_unchecked(buffer)))
        } else {
            Err(Error::Truncated)
        }
    }
}

impl LittleUnpack for u32 {
    open spec fn unpack_size() -> nat {
        4
    }

    open spec fn unpack_rel(data: Seq<u8>, r: u32) -> bool {
        r as int == le_unpack(data.take(4))
    }

    fn octet_size() -> usize {
        4
    }

    fn unpack_unchecked(buffer: &[u8]) -> (r: u32) {
        let r = get_u32_at(buffer, 0);
        proof {
            assert(buffer@.take(4) =~= buffer@.subrange(0, 4));
        }
        r
    }

    fn unpack(buffer: &[u8]) -> (r: Result<u32, Error>) {
        if buffer.len() >= 4 {
            Ok(Self::unpack_unchecked(buffer))
        } else {
            Err(Error::Truncated)
        }
    }

    fn unpack_with_size(buffer: &[u8]) -> (r: Result<(usize, u32), Error>) {
        if buffer.len() >= 4 {
            Ok((4, Self::unpack_unchecked(buffer)))
        } else {
            Err(Error::Truncated)
        }
    }
}

impl LittleUnpack for u64 {
    open spec fn unpack_size() -> nat {
        8
    }

    open spec fn unpack_rel(data: Seq<u8>, r: u64) -> bool {
        r as int == le_unpack(data.take(8))
    }

    fn octet_size() -> usize {
        8
    }

    fn unpack_unchecked(buffer: &[u8]) -> (r: u64) {
        let r = get_u64_at(buffer, 0);
        proof {
            assert(buffer@.take(8) =~= buffer@.subrange(0, 8));
        }
        r
    }

    fn unpack(buffer: &[u8]) -> (r: Result<u64, Error>) {
        if buffer.len() >= 8 {
            Ok(Self::unpack_unchecked(buffer))
        } else {
            Err(Error::Truncated)
        }
    }

    fn unpack_with_size(buffer: &[u8]) -> (r: Result<(usize, u64), Error>) {
        if buffer.len() >= 8 {
            Ok((8, Self::unpack_unchecked(buffer)))
        } else {
            Err(Error::Truncated)
        }
    }
}

impl LittleUnpack for i8 {
    open spec fn unpack_size() -> nat {
        1
    }

    open spec fn unpack_rel(data: Seq<u8>, r: i8) -> bool {
        r as int == as_signed(le_unpack(data.take(1)), 1)
    }

    fn octet_size() -> usize {
        1
    }

    fn unpack_unchecked(buffer: &[u8]) -> (r: i8) {
        u8_as_i8(u8::unpack_unchecked(buffer))
    }

    fn unpack(buffer: &[u8]) -> (r: Result<i8, Error>) {
        if buffer.len() >= 1 {
            Ok(Self::unpack_unchecked(buffer))
        } else {
            Err(Error::Truncated)
        }
    }

    fn unpack_with_size(buffer: &[u8]) -> (r: Result<(usize, i8), Error>) {
        if buffer.len() >= 1 {
            Ok((1, Self::unpack_unchecked(buffer)))
        } else {
            Err(Error::Truncated)
        }
    }
}

impl LittleUnpack for i16 {
    open spec fn unpack_size() -> nat {
        2
    }

    open spec fn unpack_rel(data: Seq<u8>, r: i16) -> bool {
        r as int == as_signed(le_unpack(data.take(2)), 2)
    }

    fn octet_size() -> usize {
        2
    }

    fn unpack_unchecked(buffer: &[u8]) -> (r: i16) {
        u16_as_i16(u16::unpack_unchecked(buffer))
    }

    fn unpack(buffer: &[u8]) -> (r: Result<i16, Error>) {
        if buffer.len() >= 2 {
            Ok(Self::unpack_unchecked(buffer))
        } else {
            Err(Error::Truncated)
        }
    }

    fn unpack_with_size(buffer: &[u8]) -> (r: Result<(usize, i16), Error>) {
        if buffer.len() >= 2 {
            Ok((2, Self::unpack_unchecked(buffer)))
        } else {
            Err(Error::Truncated)
        }
    }
}

impl LittleUnpack for i32 {
    open spec fn unpack_size() -> nat {
        4
    }

    open spec fn unpack_rel(data: Seq<u8>, r: i32) -> bool {
        r as int == as_signed(le_unpack(data.take(4)), 4)
    }

    fn octet_size() -> usize {
        4
    }

    fn unpack_unchecked(buffer: &[u8]) -> (r: i32) {
        u32_as_i32(u32::unpack_unchecked(buffer))
    }

    fn unpack(buffer: &[u8]) -> (r: Result<i32, Error>) {
        if buffer.len() >= 4 {
            Ok(Self::unpack_unchecked(buffer))
        } else {
            Err(Error::Truncated)
        }
    }

    fn unpack_with_size(buffer: &[u8]) -> (r: Result<(usize, i32), Error>) {
        if buffer.len() >= 4 {
            Ok((4, Self::unpack_unchecked(buffer)))
        } else {
            Err(Error::Truncated)
        }
    }
}

impl LittleUnpack for i64 {
    open spec fn unpack_size() -> nat {
        8
    }

    open spec fn unpack_rel(data: Seq<u8>, r: i64) -> bool {
        r as int == as_signed(le_unpack(data.take(8)), 8)
    }

    fn octet_size() -> usize {
        8
    }

    fn unpack_unchecked(buffer: &[u8]) -> (r: i64) {
        u64_as_i64(u64::unpack_unchecked(buffer))
    }

    fn unpack(buffer: &[u8]) -> (r: Result<i64, Error>) {
        if buffer.len() >= 8 {
            Ok(Self::unpack_unchecked(buffer))
        } else {
            Err(Error::Truncated)
        }
    }

    fn unpack_with_size(buffer: &[u8]) -> (r: Result<(usize, i64), Error>) {
        if buffer.len() >= 8 {
            Ok((8, Self::unpack_unchecked(buffer)))
        } else {
            Err(Error::Truncated)
        }
    }
}

impl LittleUnpack for HardwareAddress {
    open spec fn unpack_size() -> nat {
        6
    }

    open spec fn unpack_rel(data: Seq<u8>, r: HardwareAddress) -> bool {
        r@ == data.take(6)
    }

    fn octet_size() -> usize {
        6
    }

    fn unpack_unchecked(buffer: &[u8]) -> (r: HardwareAddress) {
        let octets: [u8; 6] = [buffer[0], buffer[1], buffer[2], buffer[3], buffer[4], buffer[5]];
        let r = HardwareAddress::from_bytes(octets);
        proof {
            assert(octets@ =~= buffer@.take(6));
        }
        r
    }

    fn unpack(buffer: &[u8]) -> (r: Result<HardwareAddress, Error>) {
        if buffer.len() >= 6 {
            Ok(Self::unpack_unchecked(buffer))
        } else {
            Err(Error::Truncated)
        }
    }

    fn unpack_with_size(buffer: &[u8]) -> (r: Result<(usize, HardwareAddress), Error>) {
        if buffer.len() >= 6 {
            Ok((6, Self::unpack_unchecked(buffer)))
        } else {
            Err(Error::Truncated)
        }
    }
}

/// Decode `size` consecutive values from the front of `data`.
///
/// Fails with a truncation error when the buffer does not hold all
/// `size` values; on success also returns the octets consumed.
pub fn unpack_vec<T: LittleUnpack>(data: &[u8], size: usize) -> (r: Result<(usize, Vec<T>), Error>)
    ensures
        r is Ok <==> size * T::unpack_size() <= data@.len(),
        r is Err ==> r == Err::<(usize, Vec<T>), Error>(Error::Truncated),
        r matches Ok((used, items)) ==> used as nat == size * T::unpack_size() && items@.len()
            == size && (forall|i: int|
            0 <= i < size ==> T::unpack_rel(
                data@.skip(i * T::unpack_size() as int),
                #[trigger] items@[i],
            )),
{
    let n: usize = T::octet_size();
    let mut items: Vec<T> = Vec::new();
    let mut pos: usize = 0;
    let mut i: usize = 0;
    while i < size
        invariant
            n as nat == T::unpack_size(),
            i <= size,
            pos as int == i * n,
            pos <= data@.len(),
            items@.len() == i,
            forall|j: int|
                0 <= j < i ==> T::unpack_rel(data@.skip(j * n as int), #[trigger] items@[j]),
        decreases size - i,
    {
        if data.len() - pos < n {
            proof {
                assert(i * n + n <= size * n) by (nonlinear_arith)
                    requires
                        i < size,
                        n >= 0,
                ;
            }
            return Err(Error::Truncated);
        }
        let sub = slice_subrange(data, pos, data.len());
        let v = T::unpack_unchecked(sub);
        proof {
            assert(sub@ =~= data@.skip(pos as int));
            assert((i + 1) * n == i * n + n) by (nonlinear_arith);
            assert(i * n + n <= size * n) by (nonlinear_arith)
                requires
                    i < size,
                    n >= 0,
            ;
        }
        items.push(v);
        pos = pos + n;
        i = i + 1;
    }
    Ok((pos, items))
}

} // verus!
