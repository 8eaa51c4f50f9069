//! Text payloads: UTF-8 decoding, the Latin-1 fallback, and the
//! NUL-termination conventions of netlink string attributes.

use vstd::prelude::*;
use vstd::slice::{slice_subrange, slice_to_vec};
use vstd::string::StringSliceAdditionalSpecFns;
use vstd::utf8::{valid_utf8, decode_utf8, encode_utf8, encode_scalar};
use crate::error::Error;

verus! {

/// Relies on `String::from_utf8`: yields the decoded text exactly when
/// the octets are valid UTF-8, and nothing otherwise.
#[verifier::external_body]
fn vec_into_string(bytes: Vec<u8>) -> (r: Option<String>)
    ensures
        r is Some <==> valid_utf8(bytes@),
        r matches Some(s) ==> s@ == decode_utf8(bytes@),
{
    String::from_utf8(bytes).ok()
}

/// Each octet read as the character with the same code point, the
/// ISO-8859-1 reading of a byte string.
pub open spec fn latin1_chars(b: Seq<u8>) -> Seq<char> {
    b.map(|i: int, c: u8| c as char)
}

/// `b` with its trailing zero octets removed.
pub open spec fn trim_zeros(b: Seq<u8>) -> Seq<u8>
    decreases b.len(),
{
    if b.len() > 0 && b[b.len() - 1] == 0 {
        trim_zeros(b.drop_last())
    } else {
        b
    }
}

/// The text a netlink string payload decodes to: trailing NUL padding
/// is dropped, and what remains must be valid UTF-8.
pub open spec fn spec_read_string(b: Seq<u8>) -> Option<Seq<char>> {
    if valid_utf8(trim_zeros(b)) {
        Some(decode_utf8(trim_zeros(b)))
    } else {
        None
    }
}

proof fn lemma_encode_utf8_push(chars: Seq<char>, c: char)
    ensures
        encode_utf8(chars.push(c)) =~= encode_utf8(chars) + encode_scalar(c as u32),
    decreases chars.len(),
{
    if chars.len() == 0 {
        assert(chars.push(c).drop_first() =~= Seq::<char>::empty());
        assert(chars.push(c)[0] == c);
        assert(encode_utf8(chars) =~= Seq::<u8>::empty());
        assert(encode_utf8(chars.push(c)) =~= encode_scalar(c as u32) + encode_utf8(
            Seq::<char>::empty(),
        ));
        assert(encode_scalar(c as u32) + encode_utf8(Seq::<char>::empty()) =~= encode_utf8(chars)
            + encode_scalar(c as u32));
    } else {
        assert(chars.push(c).drop_first() =~= chars.drop_first().push(c));
        lemma_encode_utf8_push(chars.drop_first(), c);
        assert(encode_utf8(chars.push(c)) =~= encode_scalar(chars[0] as u32) + encode_utf8(
            chars.drop_first().push(c),
        ));
        assert(encode_utf8(chars) =~= encode_scalar(chars[0] as u32) + encode_utf8(
            chars.drop_first(),
        ));
        assert((encode_scalar(chars[0] as u32) + encode_utf8(chars.drop_first())) + encode_scalar(
            c as u32,
        ) =~= encode_scalar(chars[0] as u32) + (encode_utf8(chars.drop_first()) + encode_scalar(
            c as u32,
        )));
    }
}

proof fn lemma_encode_scalar_latin1(c: u8)
    ensures
        c < 0x80 ==> encode_scalar((c as char) as u32) =~= seq![c],
        c >= 0x80 ==> encode_scalar((c as char) as u32) =~= seq![
            (0xC0u8 | (c >> 6)) as u8,
            (0x80u8 | (c & 0x3F)) as u8,
        ],
{
    let s = (c as char) as u32;
    assert(s == c as u32);
    if c < 0x80 {
        assert(((s & 0x7F) as u8) == (s as u8)) by (bit_vector)
            requires
                s < 0x80,
        ;
    } else {
        assert((0xC0u8 | (((s >> 6) & 0x1F) as u8)) == (0xC0u8 | ((s as u8) >> 6)) && (0x80u8 | ((s
            & 0x3F) as u8)) == (0x80u8 | ((s as u8) & 0x3F))) by (bit_vector)
            requires
                s < 0x100,
        ;
    }
}

/// Encode a byte string read as ISO-8859-1 into UTF-8 octets.
fn latin1_encode(bytes: &[u8]) -> (r: Vec<u8>)
    ensures
        r@ =~= encode_utf8(latin1_chars(bytes@)),
{
    let mut out: Vec<u8> = Vec::new();
    let mut i: usize = 0;
    proof {
        assert(latin1_chars(bytes@.take(0)) =~= Seq::<char>::empty());
    }
    while i < bytes.len()
        invariant
            i <= bytes@.len(),
            out@ =~= encode_utf8(latin1_chars(bytes@.take(i as int))),
        decreases bytes@.len() - i,
    {
        let c = bytes[i];
        proof {
            assert(latin1_chars(bytes@.take(i + 1)) =~= latin1_chars(bytes@.take(i as int)).push(
                c as char,
            ));
            lemma_encode_utf8_push(latin1_chars(bytes@.take(i as int)), c as char);
            lemma_encode_scalar_latin1(c);
        }
        if c < 0x80 {
            out.push(c);
        } else {
            out.push(0xC0u8 | (c >> 6));
            out.push(0x80u8 | (c & 0x3F));
        }
        i = i + 1;
    }
    proof {
        assert(bytes@.take(bytes@.len() as int) =~= bytes@);
    }
    out
}

/// Decode a byte string as ISO-8859-1: every octet becomes the
/// character with the same code point. This decoding never fails.
pub fn latin1_to_string(bytes: &[u8]) -> (r: String)
    ensures
        r@ == latin1_chars(bytes@),
{
    let encoded = latin1_encode(bytes);
    proof {
        vstd::utf8::encode_utf8_valid_utf8(latin1_chars(bytes@));
        vstd::utf8::encode_utf8_decode_utf8(latin1_chars(bytes@));
    }
    match vec_into_string(encoded) {
        Some(s) => s,
        None => {
            proof {
                assert(false);
            }
            String::new()
        },
    }
}

/// Decode a byte string as UTF-8, or report that it is not UTF-8.
pub fn utf8_to_string(bytes: &[u8]) -> (r: Option<String>)
    ensures
        r is Some <==> valid_utf8(bytes@),
        r matches Some(s) ==> s@ == decode_utf8(bytes@),
{
    vec_into_string(slice_to_vec(bytes))
}

/// Drop the trailing zero octets of `bytes`.
pub fn trim_trailing_zeros(bytes: &[u8]) -> (r: &[u8])
    ensures
        r@ == trim_zeros(bytes@),
{
    let mut end: usize = bytes.len();
    proof {
        assert(bytes@.take(end as int) =~= bytes@);
    }
    while end > 0 && bytes[end - 1] == 0
        invariant
            end <= bytes@.len(),
            trim_zeros(bytes@) == trim_zeros(bytes@.take(end as int)),
        decreases end,
    {
        proof {
            assert(bytes@.take(end as int).drop_last() =~= bytes@.take(end - 1));
        }
        end = end - 1;
    }
    let r = slice_subrange(bytes, 0, end);
    proof {
        assert(r@ =~= bytes@.take(end as int));
    }
    r
}

/// Decode a netlink string payload: trailing NUL padding is dropped
/// and the rest must be valid UTF-8.
pub fn read_string(bytes: &[u8]) -> (r: Result<String, Error>)
    ensures
        r is Ok <==> spec_read_string(bytes@) is Some,
        r is Err ==> r == Err::<String, Error>(Error::Utf8),
        r matches Ok(s) ==> s@ == spec_read_string(bytes@).unwrap(),
{
    let trimmed = trim_trailing_zeros(bytes);
    match utf8_to_string(trimmed) {
        Some(s) => Ok(s),
        None => Err(Error::Utf8),
    }
}

/// Whether two byte slices hold the same octets.
pub fn bytes_equal(x: &[u8], y: &[u8]) -> (r: bool)
    ensures
        r == (x@ == y@),
{
    if x.len() != y.len() {
        proof {
            assert(x@ != y@);
        }
        return false;
    }
    let mut i: usize = 0;
    while i < x.len()
        invariant
            x@.len() == y@.len(),
            i <= x@.len(),
            forall|j: int| 0 <= j < i ==> x@[j] == y@[j],
        decreases x@.len() - i,
    {
        if x[i] != y[i] {
            proof {
                assert(x@ != y@);
            }
            return false;
        }
        i = i + 1;
    }
    proof {
        assert(x@ =~= y@);
    }
    true
}

/// Whether two strings hold the same text.
pub fn str_eq(a: &str, b: &str) -> (r: bool)
    ensures
        r == (a@ == b@),
{
    let r = bytes_equal(a.as_bytes(), b.as_bytes());
    proof {
        if a.spec_bytes() == b.spec_bytes() {
            vstd::utf8::encode_utf8_decode_utf8(a@);
            vstd::utf8::encode_utf8_decode_utf8(b@);
        }
    }
    r
}

/// The octets a string value is written as: its UTF-8 encoding with
/// one terminating NUL.
pub open spec fn spec_string_bytes(s: Seq<char>) -> Seq<u8> {
    encode_utf8(s) + seq![0u8]
}

/// Write a string value: its UTF-8 octets and a terminating NUL.
/// Fails when the text itself contains a NUL, which the wire format
/// cannot carry.
pub fn write_string(s: &str, out: &mut Vec<u8>) -> (r: Result<(), Error>)
    ensures
        r is Ok <==> !s.spec_bytes().contains(0u8),
        r is Ok ==> final(out)@ =~= old(out)@ + spec_string_bytes(s@),
        r is Err ==> final(out)@ == old(out)@ && r == Err::<(), Error>(Error::Utf8),
{
    let bytes = s.as_bytes();
    let mut i: usize = 0;
    while i < bytes.len()
        invariant
            bytes@ == s.spec_bytes(),
            i <= bytes@.len(),
            forall|j: int| 0 <= j < i ==> bytes@[j] != 0,
        decreases bytes@.len() - i,
    {
        if bytes[i] == 0 {
            proof {
                assert(s.spec_bytes()[i as int] == 0);
                assert(s.spec_bytes().contains(0u8));
            }
            return Err(Error::Utf8);
        }
        i = i + 1;
    }
    let mut j: usize = 0;
    while j < bytes.len()
        invariant
            bytes@ == s.spec_bytes(),
            j <= bytes@.len(),
            out@ =~= old(out)@ + bytes@.take(j as int),
        decreases bytes@.len() - j,
    {
        out.push(bytes[j]);
        j = j + 1;
    }
    out.push(0u8);
    proof {
        assert(bytes@.take(bytes@.len() as int) =~= bytes@);
        assert(out@ =~= old(out)@ + spec_string_bytes(s@));
    }
    Ok(())
}

} // verus!
