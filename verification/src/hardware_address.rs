//! Six-octet hardware (MAC) addresses.

use vstd::prelude::*;

verus! {

/// A six-octet identifier, used as the MAC address for Ethernet
/// (802.3), Bluetooth or Wi-Fi (802.11).
#[derive(Copy, Clone, Eq, PartialEq, Hash, Debug)]
pub struct HardwareAddress {
    value: [u8; 6],
}

impl View for HardwareAddress {
    type V = Seq<u8>;

    closed spec fn view(&self) -> Seq<u8> {
        self.value@
    }
}

impl HardwareAddress {
    /// An address always holds exactly six octets.
    pub broadcast proof fn lemma_len(&self)
        ensures
            #[trigger] self@.len() == 6,
    {
    }

    /// Build an address from six octets.
    pub fn from_bytes(value: [u8; 6]) -> (r: HardwareAddress)
        ensures
            r@ == value@,
    {
        HardwareAddress { value }
    }

    /// The six octets of the address.
    pub fn bytes(&self) -> (r: [u8; 6])
        ensures
            r@ == self@,
    {
        self.value
    }
}

/// The ASCII code of the lowercase hex digit for `n`.
pub open spec fn hex_ascii(n: int) -> u8 {
    if n < 10 {
        (0x30 + n) as u8
    } else {
        (0x57 + n) as u8
    }
}

/// The two lowercase hex digits of one octet, as ASCII codes.
pub open spec fn hex_pair(x: int) -> Seq<u8> {
    seq![hex_ascii(x / 16), hex_ascii(x % 16)]
}

/// The ASCII text of an address: six hex pairs joined by colons.
pub open spec fn mac_ascii(b: Seq<u8>) -> Seq<u8> {
    hex_pair(b[0] as int) + seq![0x3au8] + hex_pair(b[1] as int) + seq![0x3au8] + hex_pair(
        b[2] as int,
    ) + seq![0x3au8] + hex_pair(b[3] as int) + seq![0x3au8] + hex_pair(b[4] as int) + seq![0x3au8]
        + hex_pair(b[5] as int)
}

fn push_hex_pair(out: &mut Vec<u8>, x: u8)
    ensures
        final(out)@ =~= old(out)@ + hex_pair(x as int),
{
    let hi = x / 16;
    let lo = x % 16;
    out.push(
        if hi < 10 {
            0x30 + hi
        } else {
            0x57 + hi
        },
    );
    out.push(
        if lo < 10 {
            0x30 + lo
        } else {
            0x57 + lo
        },
    );
}

impl HardwareAddress {
    /// The colon-separated lowercase hex text of the address, the
    /// customary display form.
    pub fn to_hex_string(&self) -> (r: String)
        ensures
            r@ == crate::strings::latin1_chars(mac_ascii(self@)),
    {
        let octets = self.bytes();
        let mut out: Vec<u8> = Vec::new();
        push_hex_pair(&mut out, octets[0]);
        out.push(0x3a);
        push_hex_pair(&mut out, octets[1]);
        out.push(0x3a);
        push_hex_pair(&mut out, octets[2]);
        out.push(0x3a);
        push_hex_pair(&mut out, octets[3]);
        out.push(0x3a);
        push_hex_pair(&mut out, octets[4]);
        out.push(0x3a);
        push_hex_pair(&mut out, octets[5]);
        proof {
            assert(out@ =~= mac_ascii(self@));
        }
        crate::strings::latin1_to_string(out.as_slice())
    }
}

} // verus!
