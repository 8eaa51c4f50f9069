//! Little-endian codec for fixed-width values.
//!
//! All multi-byte integers on the netlink wire are read and written in
//! little-endian byte order. The original kernel ABI is native-endian;
//! this library fixes the order explicitly so that the format is the
//! same on every platform it is compiled for.

use vstd::prelude::*;

verus! {

/// `256^n`, the number of values that fit in `n` octets.
pub open spec fn pow256(n: nat) -> int
    decreases n,
{
    if n == 0 {
        1
    } else {
        256 * pow256((n - 1) as nat)
    }
}

/// The value of a byte sequence read as a little-endian unsigned integer.
pub open spec fn le_unpack(b: Seq<u8>) -> int
    decreases b.len(),
{
    if b.len() == 0 {
        0
    } else {
        b[0] + 256 * le_unpack(b.drop_first())
    }
}

/// The `n`-octet little-endian encoding of `v`.
pub open spec fn le_pack(v: int, n: nat) -> Seq<u8>
    decreases n,
{
    if n == 0 {
        Seq::empty()
    } else {
        seq![(v % 256) as u8] + le_pack(v / 256, (n - 1) as nat)
    }
}

/// Two's-complement reading of an unsigned `n`-octet value.
pub open spec fn as_signed(u: int, n: nat) -> int {
    if u < pow256(n) / 2 {
        u
    } else {
        u - pow256(n)
    }
}

/// The unsigned `n`-octet value that encodes the signed value `v`.
pub open spec fn to_unsigned(v: int, n: nat) -> int {
    if v >= 0 {
        v
    } else {
        v + pow256(n)
    }
}

/// The powers of 256 for the widths the codec uses.
pub proof fn lemma_pow256_values()
    ensures
        pow256(0) == 1,
        pow256(1) == 0x100,
        pow256(2) == 0x1_0000,
        pow256(3) == 0x100_0000,
        pow256(4) == 0x1_0000_0000,
        pow256(5) == 0x100_0000_0000,
        pow256(6) == 0x1_0000_0000_0000,
        pow256(7) == 0x100_0000_0000_0000,
        pow256(8) == 0x1_0000_0000_0000_0000,
{
    assert(pow256(0) == 1);
    assert(pow256(1) == 0x100);
    assert(pow256(2) == 0x1_0000);
    assert(pow256(3) == 0x100_0000);
    assert(pow256(4) == 0x1_0000_0000);
    assert(pow256(5) == 0x100_0000_0000);
    assert(pow256(6) == 0x1_0000_0000_0000);
    assert(pow256(7) == 0x100_0000_0000_0000);
    assert(pow256(8) == 0x1_0000_0000_0000_0000);
}

/// Packing always yields exactly `n` octets.
pub proof fn lemma_le_pack_len(v: int, n: nat)
    ensures
        le_pack(v, n).len() == n,
    decreases n,
{
    if n > 0 {
        lemma_le_pack_len(v / 256, (n - 1) as nat);
    }
}

/// A little-endian value of `n` octets lies in `[0, 256^n)`.
pub proof fn lemma_le_unpack_bound(b: Seq<u8>)
    ensures
        0 <= le_unpack(b) < pow256(b.len()),
    decreases b.len(),
{
    if b.len() == 0 {
    } else {
        lemma_le_unpack_bound(b.drop_first());
        assert(b[0] + 256 * le_unpack(b.drop_first()) < 256 * pow256((b.len() - 1) as nat))
            by (nonlinear_arith)
            requires
                b[0] < 256,
                0 <= le_unpack(b.drop_first()) < pow256((b.len() - 1) as nat),
        ;
    }
}

/// Packing yields `n` octets, and unpacking them gives the value back.
pub proof fn lemma_le_round_trip(v: int, n: nat)
    requires
        0 <= v < pow256(n),
    ensures
        le_pack(v, n).len() == n,
        le_unpack(le_pack(v, n)) == v,
    decreases n,
{
    if n == 0 {
    } else {
        assert(0 <= v / 256 && v / 256 < pow256((n - 1) as nat) && v % 256 + 256 * (v / 256) == v)
            by (nonlinear_arith)
            requires
                0 <= v < 256 * pow256((n - 1) as nat),
        ;
        lemma_le_round_trip(v / 256, (n - 1) as nat);
        let packed = le_pack(v, n);
        assert(packed.drop_first() =~= le_pack(v / 256, (n - 1) as nat));
    }
}

/// Unpacking `n` octets and packing the value gives the octets back.
pub proof fn lemma_le_pack_unpack(b: Seq<u8>)
    ensures
        le_pack(le_unpack(b), b.len()) =~= b,
    decreases b.len(),
{
    if b.len() == 0 {
    } else {
        let v = le_unpack(b);
        let rest = le_unpack(b.drop_first());
        lemma_le_unpack_bound(b.drop_first());
        assert((b[0] + 256 * rest) % 256 == b[0] && (b[0] + 256 * rest) / 256 == rest)
            by (nonlinear_arith)
            requires
                0 <= b[0] < 256,
                rest >= 0,
        ;
        lemma_le_pack_unpack(b.drop_first());
        assert(le_pack(v, b.len()).drop_first() =~= le_pack(rest, (b.len() - 1) as nat));
        assert(le_pack(v, b.len())[0] == (v % 256) as u8);
    }
}

/// Reading back the unsigned encoding of a signed value gives the
/// value back, for every value the width can represent.
pub proof fn lemma_signed_round_trip(v: int, n: nat)
    requires
        n >= 1,
        -(pow256(n) / 2) <= v < pow256(n) / 2,
    ensures
        0 <= to_unsigned(v, n) < pow256(n),
        as_signed(to_unsigned(v, n), n) == v,
{
    assert(pow256(n) == 256 * pow256((n - 1) as nat));
    lemma_pow256_positive((n - 1) as nat);
}

proof fn lemma_pow256_positive(n: nat)
    ensures
        pow256(n) >= 1,
    decreases n,
{
    if n > 0 {
        lemma_pow256_positive((n - 1) as nat);
    }
}

proof fn lemma_le_unpack_first(b: Seq<u8>)
    requires
        b.len() >= 1,
    ensures
        le_unpack(b) == b[0] + 256 * le_unpack(b.drop_first()),
{
}

/// A one-octet value, written out.
pub proof fn lemma_le_unpack1(b: Seq<u8>)
    requires
        b.len() == 1,
    ensures
        le_unpack(b) == b[0],
{
    lemma_le_unpack_first(b);
    assert(b.drop_first().len() == 0);
}

/// A two-octet value, written out.
pub proof fn lemma_le_unpack2(b: Seq<u8>)
    requires
        b.len() == 2,
    ensures
        le_unpack(b) == b[0] + 0x100 * b[1],
{
    let b1 = b.drop_first();
    lemma_le_unpack_first(b);
    lemma_le_unpack_first(b1);
    assert(b1.drop_first().len() == 0);
}

/// A four-octet value, written out.
pub proof fn lemma_le_unpack4(b: Seq<u8>)
    requires
        b.len() == 4,
    ensures
        le_unpack(b) == b[0] + 0x100 * b[1] + 0x1_0000 * b[2] + 0x100_0000 * b[3],
{
    let b1 = b.drop_first();
    let b2 = b1.drop_first();
    lemma_le_unpack_first(b);
    lemma_le_unpack_first(b1);
    lemma_le_unpack2(b2);
}

/// An eight-octet value, written out.
pub proof fn lemma_le_unpack8(b: Seq<u8>)
    requires
        b.len() == 8,
    ensures
        le_unpack(b) == b[0] + 0x100 * b[1] + 0x1_0000 * b[2] + 0x100_0000 * b[3]
            + 0x1_0000_0000 * b[4] + 0x100_0000_0000 * b[5] + 0x1_0000_0000_0000 * b[6]
            + 0x100_0000_0000_0000 * b[7],
{
    let b1 = b.drop_first();
    let b2 = b1.drop_first();
    let b3 = b2.drop_first();
    let b4 = b3.drop_first();
    lemma_le_unpack_first(b);
    lemma_le_unpack_first(b1);
    lemma_le_unpack_first(b2);
    lemma_le_unpack_first(b3);
    lemma_le_unpack4(b4);
}

/// Read one octet at `pos`.
pub fn get_u8_at(b: &[u8], pos: usize) -> (r: u8)
    requires
        pos + 1 <= b@.len(),
    ensures
        r as int == le_unpack(b@.subrange(pos as int, pos + 1)),
{
    proof {
        let t = b@.subrange(pos as int, pos + 1);
        assert(t.drop_first().len() == 0);
        lemma_le_unpack_first(t);
    }
    b[pos]
}

/// Read a little-endian two-octet value at `pos`.
pub fn get_u16_at(b: &[u8], pos: usize) -> (r: u16)
    requires
        pos + 2 <= b@.len(),
    ensures
        r as int == le_unpack(b@.subrange(pos as int, pos + 2)),
{
    let r: u16 = b[pos] as u16 + (b[pos + 1] as u16) * 0x100;
    proof {
        lemma_le_unpack2(b@.subrange(pos as int, pos + 2));
    }
    r
}

/// Read a little-endian four-octet value at `pos`.
pub fn get_u32_at(b: &[u8], pos: usize) -> (r: u32)
    requires
        pos + 4 <= b@.len(),
    ensures
        r as int == le_unpack(b@.subrange(pos as int, pos + 4)),
{
    let r: u32 = b[pos] as u32 + (b[pos + 1] as u32) * 0x100 + (b[pos + 2] as u32) * 0x1_0000 + (b[
        pos + 3] as u32) * 0x100_0000;
    proof {
        lemma_le_unpack4(b@.subrange(pos as int, pos + 4));
    }
    r
}

/// Read a little-endian eight-octet value at `pos`.
pub fn get_u64_at(b: &[u8], pos: usize) -> (r: u64)
    requires
        pos + 8 <= b@.len(),
    ensures
        r as int == le_unpack(b@.subrange(pos as int, pos + 8)),
{
    let r: u64 = b[pos] as u64 + (b[pos + 1] as u64) * 0x100 + (b[pos + 2] as u64) * 0x1_0000 + (b[
        pos + 3] as u64) * 0x100_0000 + (b[pos + 4] as u64) * 0x1_0000_0000 + (b[pos + 5] as u64)
        * 0x100_0000_0000 + (b[pos + 6] as u64) * 0x1_0000_0000_0000 + (b[pos + 7] as u64)
        * 0x100_0000_0000_0000;
    proof {
        lemma_le_unpack8(b@.subrange(pos as int, pos + 8));
    }
    r
}

proof fn lemma_le_pack_first(v: int, n: nat)
    requires
        n >= 1,
    ensures
        le_pack(v, n) == seq![(v % 256) as u8] + le_pack(v / 256, (n - 1) as nat),
{
}

/// The two-octet encoding, written out.
pub proof fn lemma_le_pack2(v: int)
    requires
        0 <= v < 0x1_0000,
    ensures
        le_pack(v, 2) =~= seq![(v % 0x100) as u8, (v / 0x100) as u8],
{
    lemma_le_pack_first(v, 2);
    lemma_le_pack_first(v / 256, 1);
    assert(v / 256 < 256) by (nonlinear_arith)
        requires
            0 <= v < 0x1_0000,
    ;
    assert((v / 256) % 256 == v / 256);
}

/// The four-octet encoding, written out.
pub proof fn lemma_le_pack4(v: int)
    requires
        0 <= v < 0x1_0000_0000,
    ensures
        le_pack(v, 4) =~= seq![
            (v % 0x100) as u8,
            ((v / 0x100) % 0x100) as u8,
            ((v / 0x1_0000) % 0x100) as u8,
            (v / 0x100_0000) as u8,
        ],
{
    lemma_le_pack_first(v, 4);
    lemma_le_pack_first(v / 0x100, 3);
    lemma_le_pack_first(v / 0x1_0000, 2);
    lemma_le_pack_first(v / 0x100_0000, 1);
    assert(v / 0x100 / 0x100 == v / 0x1_0000 && v / 0x1_0000 / 0x100 == v / 0x100_0000 && v
        / 0x100_0000 < 0x100) by (nonlinear_arith)
        requires
            0 <= v < 0x1_0000_0000,
    ;
    assert((v / 0x100_0000) % 256 == v / 0x100_0000);
}

/// The eight-octet encoding, written out.
pub proof fn lemma_le_pack8(v: int)
    requires
        0 <= v < 0x1_0000_0000_0000_0000,
    ensures
        le_pack(v, 8) =~= seq![
            (v % 0x100) as u8,
            ((v / 0x100) % 0x100) as u8,
            ((v / 0x1_0000) % 0x100) as u8,
            ((v / 0x100_0000) % 0x100) as u8,
            ((v / 0x1_0000_0000) % 0x100) as u8,
            ((v / 0x100_0000_0000) % 0x100) as u8,
            ((v / 0x1_0000_0000_0000) % 0x100) as u8,
            (v / 0x100_0000_0000_0000) as u8,
        ],
{
    lemma_le_pack_first(v, 8);
    lemma_le_pack_first(v / 0x100, 7);
    lemma_le_pack_first(v / 0x1_0000, 6);
    lemma_le_pack_first(v / 0x100_0000, 5);
    lemma_le_pack_first(v / 0x1_0000_0000, 4);
    lemma_le_pack_first(v / 0x100_0000_0000, 3);
    lemma_le_pack_first(v / 0x1_0000_0000_0000, 2);
    lemma_le_pack_first(v / 0x100_0000_0000_0000, 1);
    assert(v / 0x100 / 0x100 == v / 0x1_0000 && v / 0x1_0000 / 0x100 == v / 0x100_0000 && v
        / 0x100_0000 / 0x100 == v / 0x1_0000_0000 && v / 0x1_0000_0000 / 0x100 == v
        / 0x100_0000_0000 && v / 0x100_0000_0000 / 0x100 == v / 0x1_0000_0000_0000 && v
        / 0x1_0000_0000_0000 / 0x100 == v / 0x100_0000_0000_0000 && v / 0x100_0000_0000_0000
        < 0x100) by (nonlinear_arith)
        requires
            0 <= v < 0x1_0000_0000_0000_0000,
    ;
    assert((v / 0x100_0000_0000_0000) % 256 == v / 0x100_0000_0000_0000);
}

/// Append the one-octet encoding of `v`.
pub fn put_u8(out: &mut Vec<u8>, v: u8)
    ensures
        final(out)@ =~= old(out)@ + le_pack(v as int, 1),
{
    proof {
        lemma_le_pack_first(v as int, 1);
    }
    out.push(v);
}

/// Append the little-endian two-octet encoding of `v`.
pub fn put_u16(out: &mut Vec<u8>, v: u16)
    ensures
        final(out)@ =~= old(out)@ + le_pack(v as int, 2),
{
    proof {
        lemma_le_pack2(v as int);
    }
    out.push((v % 0x100) as u8);
    out.push((v / 0x100) as u8);
}

/// Append the little-endian four-octet encoding of `v`.
pub fn put_u32(out: &mut Vec<u8>, v: u32)
    ensures
        final(out)@ =~= old(out)@ + le_pack(v as int, 4),
{
    proof {
        lemma_le_pack4(v as int);
    }
    out.push((v % 0x100) as u8);
    out.push(((v / 0x100) % 0x100) as u8);
    out.push(((v / 0x1_0000) % 0x100) as u8);
    out.push((v / 0x100_0000) as u8);
}

/// Append the little-endian eight-octet encoding of `v`.
pub fn put_u64(out: &mut Vec<u8>, v: u64)
    ensures
        final(out)@ =~= old(out)@ + le_pack(v as int, 8),
{
    proof {
        lemma_le_pack8(v as int);
    }
    out.push((v % 0x100) as u8);
    out.push(((v / 0x100) % 0x100) as u8);
    out.push(((v / 0x1_0000) % 0x100) as u8);
    out.push(((v / 0x100_0000) % 0x100) as u8);
    out.push(((v / 0x1_0000_0000) % 0x100) as u8);
    out.push(((v / 0x100_0000_0000) % 0x100) as u8);
    out.push(((v / 0x1_0000_0000_0000) % 0x100) as u8);
    out.push((v / 0x100_0000_0000_0000) as u8);
}

/// Reinterpret a one-octet unsigned value as signed.
pub fn u8_as_i8(u: u8) -> (r: i8)
    ensures
        r as int == as_signed(u as int, 1),
{
    proof {
        lemma_pow256_values();
    }
    if u < 0x80 {
        u as i8
    } else {
        i8::MIN + ((u - 0x80) as i8)
    }
}

/// The one-octet unsigned value that encodes `v`.
pub fn i8_as_u8(v: i8) -> (r: u8)
    ensures
        r as int == to_unsigned(v as int, 1),
{
    proof {
        lemma_pow256_values();
    }
    if v >= 0 {
        v as u8
    } else {
        ((v as i16) + 0x100i16) as u8
    }
}

/// Reinterpret a two-octet unsigned value as signed.
pub fn u16_as_i16(u: u16) -> (r: i16)
    ensures
        r as int == as_signed(u as int, 2),
{
    proof {
        lemma_pow256_values();
    }
    if u < 0x8000 {
        u as i16
    } else {
        i16::MIN + ((u - 0x8000) as i16)
    }
}

/// The two-octet unsigned value that encodes `v`.
pub fn i16_as_u16(v: i16) -> (r: u16)
    ensures
        r as int == to_unsigned(v as int, 2),
{
    proof {
        lemma_pow256_values();
    }
    if v >= 0 {
        v as u16
    } else {
        ((v as i32) + 0x1_0000i32) as u16
    }
}

/// Reinterpret an eight-octet unsigned value as signed.
pub fn u64_as_i64(u: u64) -> (r: i64)
    ensures
        r as int == as_signed(u as int, 8),
{
    proof {
        lemma_pow256_values();
    }
    if u < 0x8000_0000_0000_0000 {
        u as i64
    } else {
        i64::MIN + ((u - 0x8000_0000_0000_0000) as i64)
    }
}

/// The eight-octet unsigned value that encodes `v`.
pub fn i64_as_u64(v: i64) -> (r: u64)
    ensures
        r as int == to_unsigned(v as int, 8),
{
    proof {
        lemma_pow256_values();
    }
    if v >= 0 {
        v as u64
    } else {
        ((v - i64::MIN) as u64) + 0x8000_0000_0000_0000u64
    }
}

/// Reinterpret a four-octet unsigned value as signed.
pub fn u32_as_i32(u: u32) -> (r: i32)
    ensures
        r as int == as_signed(u as int, 4),
{
    proof {
        lemma_pow256_values();
    }
    if u < 0x8000_0000 {
        u as i32
    } else {
        i32::MIN + ((u - 0x8000_0000) as i32)
    }
}

/// The four-octet unsigned value that encodes `v`.
pub fn i32_as_u32(v: i32) -> (r: u32)
    ensures
        r as int == to_unsigned(v as int, 4),
{
    proof {
        lemma_pow256_values();
    }
    if v >= 0 {
        v as u32
    } else {
        ((v as i64) + 0x1_0000_0000i64) as u32
    }
}

} // verus!
