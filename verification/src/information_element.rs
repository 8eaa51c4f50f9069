//! 802.11 information elements.
//!
//! An information element is framed as `{identifier: u8, length: u8,
//! payload[length]}` inside a management-frame body. The typed
//! parsers here check every declared length before touching the
//! payload and never read past it.

use vstd::prelude::*;
use vstd::slice::{slice_subrange, slice_to_vec};
use vstd::utf8::{valid_utf8, decode_utf8};
use crate::codec::le_unpack;
use crate::error::Error;
use crate::information_element_ids::InformationElementId;
use crate::socket::ConvertFrom;
use crate::strings::{latin1_chars, trim_zeros};
use crate::unpack::unpack_vec;

verus! {

/// An unprocessed information element: its identifier and raw payload.
#[derive(Debug)]
pub struct RawInformationElement {
    pub identifier: u8,
    pub data: Vec<u8>,
}

/// Whether the front of `b` frames one whole information element:
/// the two framing octets and the declared payload must be present.
pub open spec fn raw_ie_ok(b: Seq<u8>) -> bool {
    b.len() >= 2 && b.len() >= b[1] + 2
}

/// The payload of the element at the front of `b`.
pub open spec fn raw_ie_payload(b: Seq<u8>) -> Seq<u8> {
    b.subrange(2, b[1] + 2)
}

/// The models of a raw element list.
pub open spec fn raw_ie_models(ies: Seq<RawInformationElement>) -> Seq<(u8, Seq<u8>)> {
    ies.map(|i: int, e: RawInformationElement| (e.identifier, e.data@))
}

/// The raw elements laid head to tail in `b`. The walk stops at the
/// first truncated remainder.
pub open spec fn spec_raw_ies(b: Seq<u8>) -> Seq<(u8, Seq<u8>)>
    decreases b.len(),
{
    if raw_ie_ok(b) {
        if b[1] + 2 < b.len() {
            seq![(b[0], raw_ie_payload(b))] + spec_raw_ies(b.skip(b[1] + 2))
        } else {
            seq![(b[0], raw_ie_payload(b))]
        }
    } else {
        Seq::empty()
    }
}

impl RawInformationElement {
    /// Parse the element at the front of `data`: an identifier, a
    /// payload length, and that many payload octets. Fails when the
    /// buffer does not hold the framing octets or the whole declared
    /// payload.
    pub fn parse(data: &[u8]) -> (r: Result<RawInformationElement, Error>)
        ensures
            r is Ok <==> raw_ie_ok(data@),
            r is Err ==> r == Err::<RawInformationElement, Error>(Error::Truncated),
            r matches Ok(ie) ==> ie.identifier == data@[0] && ie.data@ == raw_ie_payload(data@),
    {
        if data.len() < 2 {
            return Err(Error::Truncated);
        }
        let identifier = data[0];
        let length = data[1] as usize;
        if data.len() - 2 < length {
            return Err(Error::Truncated);
        }
        let payload = slice_to_vec(slice_subrange(data, 2, 2 + length));
        Ok(RawInformationElement { identifier, data: payload })
    }

    /// The element's identifier, when it is one the library knows.
    pub fn ie_id(&self) -> (r: Option<InformationElementId>)
        ensures
            r == InformationElementId::spec_convert_from(self.identifier),
    {
        InformationElementId::convert_from(self.identifier)
    }
}

/// A sequence of raw information elements.
#[derive(Debug)]
pub struct InformationElements {
    pub elements: Vec<RawInformationElement>,
}

impl InformationElements {
    /// Parse every element laid head to tail in `data`. A truncated
    /// remainder ends the walk without an error.
    #[verifier::loop_isolation(false)]
    pub fn parse(data: &[u8]) -> (r: InformationElements)
        ensures
            raw_ie_models(r.elements@) =~= spec_raw_ies(data@),
    {
        let mut elements: Vec<RawInformationElement> = Vec::new();
        let mut pos: usize = 0;
        let mut done: bool = false;
        proof {
            assert(data@.skip(0) =~= data@);
            assert(raw_ie_models(elements@) =~= Seq::<(u8, Seq<u8>)>::empty());
        }
        while !done
            invariant
                pos <= data@.len(),
                !done ==> spec_raw_ies(data@) =~= raw_ie_models(elements@) + spec_raw_ies(
                    data@.skip(pos as int),
                ),
                done ==> raw_ie_models(elements@) =~= spec_raw_ies(data@),
            decreases data@.len() - pos + (if done { 0int } else { 1int }),
        {
            let sub = slice_subrange(data, pos, data.len());
            let ghost prev = elements@;
            match RawInformationElement::parse(sub) {
                Ok(ie) => {
                    let consumed = ie.data.len() + 2;
                    proof {
                        assert(raw_ie_models(prev.push(ie)) =~= raw_ie_models(prev) + seq![
                            (ie.identifier, ie.data@),
                        ]);
                    }
                    elements.push(ie);
                    if consumed < data.len() - pos {
                        proof {
                            assert(data@.skip(pos as int).skip(consumed as int) =~= data@.skip(
                                pos + consumed,
                            ));
                        }
                        pos = pos + consumed;
                    } else {
                        done = true;
                    }
                },
                Err(_) => {
                    done = true;
                },
            }
        }
        InformationElements { elements }
    }
}

/// A service set identifier: the network name carried in a beacon.
#[derive(Debug)]
pub struct Ssid {
    pub ssid: String,
}

/// The text an SSID payload decodes to: trailing NUL padding is
/// dropped, then the octets are read as UTF-8 where they are valid
/// UTF-8 and as ISO-8859-1 otherwise.
pub open spec fn spec_ssid(b: Seq<u8>) -> Seq<char> {
    if valid_utf8(trim_zeros(b)) {
        decode_utf8(trim_zeros(b))
    } else {
        latin1_chars(trim_zeros(b))
    }
}

impl Ssid {
    /// Decode an SSID payload. Every payload decodes: what is not
    /// valid UTF-8 is read as ISO-8859-1.
    pub fn parse(data: &[u8]) -> (r: Result<Ssid, Error>)
        ensures
            r matches Ok(s) && s.ssid@ == spec_ssid(data@),
    {
        let trimmed = crate::strings::trim_trailing_zeros(data);
        let ssid = match crate::strings::utf8_to_string(trimmed) {
            Some(s) => s,
            None => crate::strings::latin1_to_string(trimmed),
        };
        Ok(Ssid { ssid })
    }
}

/// A cipher suite selector carried in an RSN element.
#[derive(Clone, Copy, Debug, PartialEq, Eq, Structural)]
pub enum CipherSuite {
    UseGroupCipherSuite,
    WiredEquivalentPrivacy40,
    TemporalKeyIntegrityProtocol,
    CounterModeCbcMacProtocol,
    WiredEquivalentPrivacy104,
    BroadcastIntegrityProtocol,
    GroupAddressedTrafficNotAllowed,
    Reserved(u8),
    Vendor(u32),
}

/// Whether a 32-bit selector is a standard (OUI 00-0F-AC) suite.
pub open spec fn standard_suite(v: u32) -> bool {
    v & 0x00ff_ffff == 0x00ac_0f00
}

/// The cipher suite a 32-bit selector decodes to.
pub open spec fn spec_cipher_from(v: u32) -> CipherSuite {
    if standard_suite(v) {
        match (v >> 24) as u8 {
            0u8 => CipherSuite::UseGroupCipherSuite,
            1u8 => CipherSuite::WiredEquivalentPrivacy40,
            2u8 => CipherSuite::TemporalKeyIntegrityProtocol,
            4u8 => CipherSuite::CounterModeCbcMacProtocol,
            5u8 => CipherSuite::WiredEquivalentPrivacy104,
            6u8 => CipherSuite::BroadcastIntegrityProtocol,
            7u8 => CipherSuite::GroupAddressedTrafficNotAllowed,
            c => CipherSuite::Reserved(c),
        }
    } else {
        CipherSuite::Vendor(v)
    }
}

/// The 32-bit selector a cipher suite encodes to.
pub open spec fn spec_cipher_to(s: CipherSuite) -> u32 {
    match s {
        CipherSuite::UseGroupCipherSuite => 0x00ac_0f00,
        CipherSuite::WiredEquivalentPrivacy40 => 0x01ac_0f00,
        CipherSuite::TemporalKeyIntegrityProtocol => 0x02ac_0f00,
        CipherSuite::CounterModeCbcMacProtocol => 0x04ac_0f00,
        CipherSuite::WiredEquivalentPrivacy104 => 0x05ac_0f00,
        CipherSuite::BroadcastIntegrityProtocol => 0x06ac_0f00,
        CipherSuite::GroupAddressedTrafficNotAllowed => 0x07ac_0f00,
        CipherSuite::Reserved(c) => 0x00ac_0f00 | ((c as u32) << 24),
        CipherSuite::Vendor(v) => v,
    }
}

/// A cipher suite value as decoding can produce it: the reserved and
/// vendor carriers hold only what the standard table does not.
pub open spec fn cipher_wf(s: CipherSuite) -> bool {
    match s {
        CipherSuite::Reserved(c) => c != 0 && c != 1 && c != 2 && c != 4 && c != 5 && c != 6 && c
            != 7,
        CipherSuite::Vendor(v) => !standard_suite(v),
        _ => true,
    }
}

impl CipherSuite {
    /// Decode a 32-bit suite selector.
    pub fn from_wire(v: u32) -> (r: CipherSuite)
        ensures
            r == spec_cipher_from(v),
    {
        if v & 0x00ff_ffff == 0x00ac_0f00 {
            let c = (v >> 24) as u8;
            match c {
                0u8 => CipherSuite::UseGroupCipherSuite,
                1u8 => CipherSuite::WiredEquivalentPrivacy40,
                2u8 => CipherSuite::TemporalKeyIntegrityProtocol,
                4u8 => CipherSuite::CounterModeCbcMacProtocol,
                5u8 => CipherSuite::WiredEquivalentPrivacy104,
                6u8 => CipherSuite::BroadcastIntegrityProtocol,
                7u8 => CipherSuite::GroupAddressedTrafficNotAllowed,
                _ => CipherSuite::Reserved(c),
            }
        } else {
            CipherSuite::Vendor(v)
        }
    }

    /// Encode the suite back into its 32-bit selector.
    pub fn to_wire(&self) -> (r: u32)
        ensures
            r == spec_cipher_to(*self),
    {
        match *self {
            CipherSuite::UseGroupCipherSuite => 0x00ac_0f00,
            CipherSuite::WiredEquivalentPrivacy40 => 0x01ac_0f00,
            CipherSuite::TemporalKeyIntegrityProtocol => 0x02ac_0f00,
            CipherSuite::CounterModeCbcMacProtocol => 0x04ac_0f00,
            CipherSuite::WiredEquivalentPrivacy104 => 0x05ac_0f00,
            CipherSuite::BroadcastIntegrityProtocol => 0x06ac_0f00,
            CipherSuite::GroupAddressedTrafficNotAllowed => 0x07ac_0f00,
            CipherSuite::Reserved(c) => {
                proof {
                    assert(0x00ac_0f00u32 | ((c as u32) << 24) < 0x1_0000_0000) by (bit_vector);
                }
                0x00ac_0f00u32 | ((c as u32) << 24)
            },
            CipherSuite::Vendor(v) => v,
        }
    }
}

/// Decoding the encoding of a well-formed cipher suite gives the
/// suite back.
pub proof fn lemma_cipher_suite_round_trip(s: CipherSuite)
    requires
        cipher_wf(s),
    ensures
        spec_cipher_from(spec_cipher_to(s)) == s,
{
    match s {
        CipherSuite::Reserved(c) => {
            assert((0x00ac_0f00u32 | ((c as u32) << 24)) & 0x00ff_ffff == 0x00ac_0f00 && ((
            0x00ac_0f00u32 | ((c as u32) << 24)) >> 24) as u8 == c) by (bit_vector);
        },
        CipherSuite::Vendor(v) => {
        },
        _ => {
            assert(0x00ac_0f00u32 & 0x00ff_ffff == 0x00ac_0f00 && (0x00ac_0f00u32 >> 24) as u8
                == 0) by (bit_vector);
            assert(0x01ac_0f00u32 & 0x00ff_ffff == 0x00ac_0f00 && (0x01ac_0f00u32 >> 24) as u8
                == 1) by (bit_vector);
            assert(0x02ac_0f00u32 & 0x00ff_ffff == 0x00ac_0f00 && (0x02ac_0f00u32 >> 24) as u8
                == 2) by (bit_vector);
            assert(0x04ac_0f00u32 & 0x00ff_ffff == 0x00ac_0f00 && (0x04ac_0f00u32 >> 24) as u8
                == 4) by (bit_vector);
            assert(0x05ac_0f00u32 & 0x00ff_ffff == 0x00ac_0f00 && (0x05ac_0f00u32 >> 24) as u8
                == 5) by (bit_vector);
            assert(0x06ac_0f00u32 & 0x00ff_ffff == 0x00ac_0f00 && (0x06ac_0f00u32 >> 24) as u8
                == 6) by (bit_vector);
            assert(0x07ac_0f00u32 & 0x00ff_ffff == 0x00ac_0f00 && (0x07ac_0f00u32 >> 24) as u8
                == 7) by (bit_vector);
        },
    }
}

/// An authentication and key management (AKM) suite selector.
#[derive(Clone, Copy, Debug, PartialEq, Eq, Structural)]
pub enum AuthenticationKeyManagement {
    PairwiseMasterKeySecurityAssociation,
    PreSharedKey,
    FastTransitionPMKSA,
    FastTransitionPreSharedKey,
    PMKSASha256,
    PreSharedKeySha256,
    TunneledDirectLinkSetup,
    SimultaneousAuthenticationOfEquals,
    FastTransitionSAE,
    Reserved(u8),
    Vendor(u32),
}

/// The AKM suite a 32-bit selector decodes to.
pub open spec fn spec_akm_from(v: u32) -> AuthenticationKeyManagement {
    if standard_suite(v) {
        match (v >> 24) as u8 {
            1u8 => AuthenticationKeyManagement::PairwiseMasterKeySecurityAssociation,
            2u8 => AuthenticationKeyManagement::PreSharedKey,
            3u8 => AuthenticationKeyManagement::FastTransitionPMKSA,
            4u8 => AuthenticationKeyManagement::FastTransitionPreSharedKey,
            5u8 => AuthenticationKeyManagement::PMKSASha256,
            6u8 => AuthenticationKeyManagement::PreSharedKeySha256,
            7u8 => AuthenticationKeyManagement::TunneledDirectLinkSetup,
            8u8 => AuthenticationKeyManagement::SimultaneousAuthenticationOfEquals,
            9u8 => AuthenticationKeyManagement::FastTransitionSAE,
            c => AuthenticationKeyManagement::Reserved(c),
        }
    } else {
        AuthenticationKeyManagement::Vendor(v)
    }
}

/// The 32-bit selector an AKM suite encodes to.
pub open spec fn spec_akm_to(s: AuthenticationKeyManagement) -> u32 {
    match s {
        AuthenticationKeyManagement::PairwiseMasterKeySecurityAssociation => 0x01ac_0f00,
        AuthenticationKeyManagement::PreSharedKey => 0x02ac_0f00,
        AuthenticationKeyManagement::FastTransitionPMKSA => 0x03ac_0f00,
        AuthenticationKeyManagement::FastTransitionPreSharedKey => 0x04ac_0f00,
        AuthenticationKeyManagement::PMKSASha256 => 0x05ac_0f00,
        AuthenticationKeyManagement::PreSharedKeySha256 => 0x06ac_0f00,
        AuthenticationKeyManagement::TunneledDirectLinkSetup => 0x07ac_0f00,
        AuthenticationKeyManagement::SimultaneousAuthenticationOfEquals => 0x08ac_0f00,
        AuthenticationKeyManagement::FastTransitionSAE => 0x09ac_0f00,
        AuthenticationKeyManagement::Reserved(c) => 0x00ac_0f00 | ((c as u32) << 24),
        AuthenticationKeyManagement::Vendor(v) => v,
    }
}

/// An AKM suite value as decoding can produce it.
pub open spec fn akm_wf(s: AuthenticationKeyManagement) -> bool {
    match s {
        AuthenticationKeyManagement::Reserved(c) => !(1 <= c <= 9),
        AuthenticationKeyManagement::Vendor(v) => !standard_suite(v),
        _ => true,
    }
}

impl AuthenticationKeyManagement {
    /// Decode a 32-bit suite selector.
    pub fn from_wire(v: u32) -> (r: AuthenticationKeyManagement)
        ensures
            r == spec_akm_from(v),
    {
        if v & 0x00ff_ffff == 0x00ac_0f00 {
            let c = (v >> 24) as u8;
            match c {
                1u8 => AuthenticationKeyManagement::PairwiseMasterKeySecurityAssociation,
                2u8 => AuthenticationKeyManagement::PreSharedKey,
                3u8 => AuthenticationKeyManagement::FastTransitionPMKSA,
                4u8 => AuthenticationKeyManagement::FastTransitionPreSharedKey,
                5u8 => AuthenticationKeyManagement::PMKSASha256,
                6u8 => AuthenticationKeyManagement::PreSharedKeySha256,
                7u8 => AuthenticationKeyManagement::TunneledDirectLinkSetup,
                8u8 => AuthenticationKeyManagement::SimultaneousAuthenticationOfEquals,
                9u8 => AuthenticationKeyManagement::FastTransitionSAE,
                _ => AuthenticationKeyManagement::Reserved(c),
            }
        } else {
            AuthenticationKeyManagement::Vendor(v)
        }
    }

    /// Encode the suite back into its 32-bit selector.
    pub fn to_wire(&self) -> (r: u32)
        ensures
            r == spec_akm_to(*self),
    {
        match *self {
            AuthenticationKeyManagement::PairwiseMasterKeySecurityAssociation => 0x01ac_0f00,
            AuthenticationKeyManagement::PreSharedKey => 0x02ac_0f00,
            AuthenticationKeyManagement::FastTransitionPMKSA => 0x03ac_0f00,
            AuthenticationKeyManagement::FastTransitionPreSharedKey => 0x04ac_0f00,
            AuthenticationKeyManagement::PMKSASha256 => 0x05ac_0f00,
            AuthenticationKeyManagement::PreSharedKeySha256 => 0x06ac_0f00,
            AuthenticationKeyManagement::TunneledDirectLinkSetup => 0x07ac_0f00,
            AuthenticationKeyManagement::SimultaneousAuthenticationOfEquals => 0x08ac_0f00,
            AuthenticationKeyManagement::FastTransitionSAE => 0x09ac_0f00,
            AuthenticationKeyManagement::Reserved(c) => {
                proof {
                    assert(0x00ac_0f00u32 | ((c as u32) << 24) < 0x1_0000_0000) by (bit_vector);
                }
                0x00ac_0f00u32 | ((c as u32) << 24)
            },
            AuthenticationKeyManagement::Vendor(v) => v,
        }
    }
}

/// Decoding the encoding of a well-formed AKM suite gives the suite
/// back.
pub proof fn lemma_akm_round_trip(s: AuthenticationKeyManagement)
    requires
        akm_wf(s),
    ensures
        spec_akm_from(spec_akm_to(s)) == s,
{
    match s {
        AuthenticationKeyManagement::Reserved(c) => {
            assert((0x00ac_0f00u32 | ((c as u32) << 24)) & 0x00ff_ffff == 0x00ac_0f00 && ((
            0x00ac_0f00u32 | ((c as u32) << 24)) >> 24) as u8 == c) by (bit_vector);
        },
        AuthenticationKeyManagement::Vendor(v) => {
        },
        _ => {
            assert(0x01ac_0f00u32 & 0x00ff_ffff == 0x00ac_0f00 && (0x01ac_0f00u32 >> 24) as u8
                == 1) by (bit_vector);
            assert(0x02ac_0f00u32 & 0x00ff_ffff == 0x00ac_0f00 && (0x02ac_0f00u32 >> 24) as u8
                == 2) by (bit_vector);
            assert(0x03ac_0f00u32 & 0x00ff_ffff == 0x00ac_0f00 && (0x03ac_0f00u32 >> 24) as u8
                == 3) by (bit_vector);
            assert(0x04ac_0f00u32 & 0x00ff_ffff == 0x00ac_0f00 && (0x04ac_0f00u32 >> 24) as u8
                == 4) by (bit_vector);
            assert(0x05ac_0f00u32 & 0x00ff_ffff == 0x00ac_0f00 && (0x05ac_0f00u32 >> 24) as u8
                == 5) by (bit_vector);
            assert(0x06ac_0f00u32 & 0x00ff_ffff == 0x00ac_0f00 && (0x06ac_0f00u32 >> 24) as u8
                == 6) by (bit_vector);
            assert(0x07ac_0f00u32 & 0x00ff_ffff == 0x00ac_0f00 && (0x07ac_0f00u32 >> 24) as u8
                == 7) by (bit_vector);
            assert(0x08ac_0f00u32 & 0x00ff_ffff == 0x00ac_0f00 && (0x08ac_0f00u32 >> 24) as u8
                == 8) by (bit_vector);
            assert(0x09ac_0f00u32 & 0x00ff_ffff == 0x00ac_0f00 && (0x09ac_0f00u32 >> 24) as u8
                == 9) by (bit_vector);
        },
    }
}

/// The protected-management-frames policy an RSN element announces.
#[derive(Clone, Copy, Debug, PartialEq, Eq, Structural)]
pub enum ProtectedManagementFramesMode {
    Disabled,
    Capable,
    Required,
}

/// Capability bit: protected management frames are required.
pub const RSN_PMF_REQUIRED: u16 = 0x0040;

/// Capability bit: protected management frames are supported.
pub const RSN_PMF_CAPABLE: u16 = 0x0080;

/// The replay-counter count a two-bit capability subfield encodes,
/// already shifted down to the low bits: 0, 1, 2 and 3 stand for 1,
/// 2, 4 and 16 counters.
pub open spec fn spec_replay_counters(x: u16) -> u8 {
    if x == 1 {
        2
    } else if x == 2 {
        4
    } else if x == 3 {
        16
    } else {
        1
    }
}

/// The pairwise-count field of an RSN payload.
pub open spec fn rsn_pairwise_count(b: Seq<u8>) -> int {
    le_unpack(b.subrange(6, 8))
}

/// The offset of the AKM-count field.
pub open spec fn rsn_akm_offset(b: Seq<u8>) -> int {
    8 + 4 * rsn_pairwise_count(b)
}

/// The AKM-count field of an RSN payload.
pub open spec fn rsn_akm_count(b: Seq<u8>) -> int {
    le_unpack(b.subrange(rsn_akm_offset(b), rsn_akm_offset(b) + 2))
}

/// The offset of the capabilities field.
pub open spec fn rsn_caps_offset(b: Seq<u8>) -> int {
    rsn_akm_offset(b) + 2 + 4 * rsn_akm_count(b)
}

/// Whether an RSN payload holds its whole fixed part, both suite
/// lists, and the capabilities word.
pub open spec fn rsn_ok(b: Seq<u8>) -> bool {
    b.len() > 8 && rsn_akm_offset(b) + 2 <= b.len() && rsn_caps_offset(b) + 2 <= b.len()
}

/// The capabilities word of an RSN payload.
pub open spec fn rsn_caps(b: Seq<u8>) -> u16 {
    le_unpack(b.subrange(rsn_caps_offset(b), rsn_caps_offset(b) + 2)) as u16
}

/// The mathematical shape of a decoded RSN element.
pub struct RsnModel {
    pub version: u16,
    pub cipher_suite: CipherSuite,
    pub ciphers: Seq<CipherSuite>,
    pub akms: Seq<AuthenticationKeyManagement>,
    pub capabilities: u16,
    pub ptksa_counters: u8,
    pub gtksa_counters: u8,
}

/// What a well-formed RSN payload decodes to.
pub open spec fn spec_rsn(b: Seq<u8>) -> RsnModel {
    RsnModel {
        version: le_unpack(b.subrange(0, 2)) as u16,
        cipher_suite: spec_cipher_from(le_unpack(b.subrange(2, 6)) as u32),
        ciphers: Seq::new(
            rsn_pairwise_count(b) as nat,
            |i: int| spec_cipher_from(le_unpack(b.subrange(8 + 4 * i, 12 + 4 * i)) as u32),
        ),
        akms: Seq::new(
            rsn_akm_count(b) as nat,
            |i: int|
                spec_akm_from(
                    le_unpack(
                        b.subrange(
                            rsn_akm_offset(b) + 2 + 4 * i,
                            rsn_akm_offset(b) + 6 + 4 * i,
                        ),
                    ) as u32,
                ),
        ),
        capabilities: rsn_caps(b),
        ptksa_counters: spec_replay_counters(((rsn_caps(b) >> 2) & 3) as u16),
        gtksa_counters: spec_replay_counters(((rsn_caps(b) >> 4) & 3) as u16),
    }
}

/// A decoded robust security network (RSN) element.
#[derive(Debug)]
pub struct RobustSecurityNetwork {
    pub version: u16,
    pub cipher_suite: CipherSuite,
    pub ciphers: Vec<CipherSuite>,
    pub akms: Vec<AuthenticationKeyManagement>,
    pub capabilities: u16,
    pub ptksa_counters: u8,
    pub gtksa_counters: u8,
}

/// The model of a decoded RSN element.
pub open spec fn rsn_model(r: RobustSecurityNetwork) -> RsnModel {
    RsnModel {
        version: r.version,
        cipher_suite: r.cipher_suite,
        ciphers: r.ciphers@,
        akms: r.akms@,
        capabilities: r.capabilities,
        ptksa_counters: r.ptksa_counters,
        gtksa_counters: r.gtksa_counters,
    }
}

fn replay_counters(x: u16) -> (r: u8)
    ensures
        r == spec_replay_counters(x),
{
    if x == 1 {
        2
    } else if x == 2 {
        4
    } else if x == 3 {
        16
    } else {
        1
    }
}

impl RobustSecurityNetwork {
    /// Decode an RSN payload: version, group cipher, the pairwise
    /// cipher list, the AKM list, and the capabilities word with its
    /// replay-counter subfields. Fails when any of those runs past
    /// the payload.
    #[verifier::loop_isolation(false)]
    pub fn parse(data: &[u8]) -> (r: Result<RobustSecurityNetwork, Error>)
        ensures
            r is Ok <==> rsn_ok(data@),
            r is Err ==> r == Err::<RobustSecurityNetwork, Error>(Error::Truncated),
            r matches Ok(x) ==> rsn_model(x) == spec_rsn(data@),
    {
        if data.len() <= 8 {
            return Err(Error::Truncated);
        }
        let version = crate::codec::get_u16_at(data, 0);
        let group = CipherSuite::from_wire(crate::codec::get_u32_at(data, 2));
        let count = crate::codec::get_u16_at(data, 6) as usize;
        let tail = slice_subrange(data, 8, data.len());
        let (used, values) = match unpack_vec::<u32>(tail, count) {
            Ok(p) => p,
            Err(_) => {
                return Err(Error::Truncated);
            },
        };
        let mut ciphers: Vec<CipherSuite> = Vec::new();
        let mut i: usize = 0;
        while i < values.len()
            invariant
                i <= values@.len(),
                ciphers@.len() == i,
                forall|j: int|
                    0 <= j < i ==> #[trigger] ciphers@[j] == spec_cipher_from(values@[j]),
            decreases values@.len() - i,
        {
            ciphers.push(CipherSuite::from_wire(values[i]));
            i = i + 1;
        }
        let akm_offset = 8 + used;
        if data.len() - akm_offset < 2 {
            return Err(Error::Truncated);
        }
        let akm_count = crate::codec::get_u16_at(data, akm_offset) as usize;
        let list_offset = akm_offset + 2;
        let tail2 = slice_subrange(data, list_offset, data.len());
        let (used2, values2) = match unpack_vec::<u32>(tail2, akm_count) {
            Ok(p) => p,
            Err(_) => {
                return Err(Error::Truncated);
            },
        };
        let mut akms: Vec<AuthenticationKeyManagement> = Vec::new();
        let mut k: usize = 0;
        while k < values2.len()
            invariant
                k <= values2@.len(),
                akms@.len() == k,
                forall|j: int| 0 <= j < k ==> #[trigger] akms@[j] == spec_akm_from(values2@[j]),
            decreases values2@.len() - k,
        {
            akms.push(AuthenticationKeyManagement::from_wire(values2[k]));
            k = k + 1;
        }
        let caps_offset = list_offset + used2;
        if data.len() - caps_offset < 2 {
            return Err(Error::Truncated);
        }
        let caps = crate::codec::get_u16_at(data, caps_offset);
        let ptksa = replay_counters((caps >> 2) & 3);
        let gtksa = replay_counters((caps >> 4) & 3);
        let result = RobustSecurityNetwork {
            version,
            cipher_suite: group,
            ciphers,
            akms,
            capabilities: caps,
            ptksa_counters: ptksa,
            gtksa_counters: gtksa,
        };
        proof {
            let b = data@;
            assert(tail@ =~= b.skip(8));
            assert(used == 4 * rsn_pairwise_count(b));
            assert forall|j: int| 0 <= j < count implies #[trigger] values@[j] == (le_unpack(
                b.subrange(8 + 4 * j, 12 + 4 * j),
            ) as u32) by {
                assert(b.skip(8).skip(4 * j).take(4) =~= b.subrange(8 + 4 * j, 12 + 4 * j));
            }
            assert(result.ciphers@ =~= spec_rsn(b).ciphers);
            assert(b.subrange(akm_offset as int, akm_offset + 2) =~= b.subrange(
                rsn_akm_offset(b),
                rsn_akm_offset(b) + 2,
            ));
            assert(tail2@ =~= b.skip(list_offset as int));
            assert forall|j: int| 0 <= j < akm_count implies #[trigger] values2@[j] == (le_unpack(
                b.subrange(rsn_akm_offset(b) + 2 + 4 * j, rsn_akm_offset(b) + 6 + 4 * j),
            ) as u32) by {
                assert(b.skip(list_offset as int).skip(4 * j).take(4) =~= b.subrange(
                    rsn_akm_offset(b) + 2 + 4 * j,
                    rsn_akm_offset(b) + 6 + 4 * j,
                ));
            }
            assert(result.akms@ =~= spec_rsn(b).akms);
            assert(b.subrange(caps_offset as int, caps_offset + 2) =~= b.subrange(
                rsn_caps_offset(b),
                rsn_caps_offset(b) + 2,
            ));
        }
        Ok(result)
    }

    /// The protected-management-frames policy the capabilities word
    /// announces: the required bit dominates the capable bit, and
    /// with neither set the policy is disabled.
    pub fn pmf_mode(&self) -> (r: ProtectedManagementFramesMode)
        ensures
            self.capabilities & RSN_PMF_REQUIRED != 0 ==> r
                == ProtectedManagementFramesMode::Required,
            self.capabilities & RSN_PMF_REQUIRED == 0 && self.capabilities & RSN_PMF_CAPABLE != 0
                ==> r == ProtectedManagementFramesMode::Capable,
            self.capabilities & RSN_PMF_REQUIRED == 0 && self.capabilities & RSN_PMF_CAPABLE == 0
                ==> r == ProtectedManagementFramesMode::Disabled,
    {
        if self.capabilities & RSN_PMF_REQUIRED != 0 {
            ProtectedManagementFramesMode::Required
        } else if self.capabilities & RSN_PMF_CAPABLE != 0 {
            ProtectedManagementFramesMode::Capable
        } else {
            ProtectedManagementFramesMode::Disabled
        }
    }
}

/// A decoded high throughput (HT) operation element.
#[derive(Clone, Copy, Debug, PartialEq, Eq, Structural)]
pub struct HighThroughputOperation {
    pub width: u32,
    pub primary_channel: u8,
    pub secondary_channel: u8,
}

/// The secondary channel an HT operation payload announces: the
/// two-bit offset field selects one above, one below, or none, with
/// channel arithmetic wrapping at one octet.
pub open spec fn spec_ht_secondary(b: Seq<u8>) -> u8 {
    if b[1] & 0x03 == 1 {
        ((b[0] + 1) % 256) as u8
    } else if b[1] & 0x03 == 3 {
        ((b[0] + 255) % 256) as u8
    } else {
        0
    }
}

/// What a 22-octet HT operation payload decodes to.
pub open spec fn spec_ht(b: Seq<u8>) -> HighThroughputOperation {
    HighThroughputOperation {
        width: if b[1] & 0x04 == 0 {
            20
        } else {
            40
        },
        primary_channel: b[0],
        secondary_channel: spec_ht_secondary(b),
    }
}

impl HighThroughputOperation {
    /// Decode an HT operation payload, which is exactly 22 octets.
    pub fn parse(data: &[u8]) -> (r: Result<HighThroughputOperation, Error>)
        ensures
            r is Ok <==> data@.len() == 22,
            r is Err ==> r == Err::<HighThroughputOperation, Error>(Error::Truncated),
            r matches Ok(x) ==> x == spec_ht(data@),
    {
        if data.len() != 22 {
            return Err(Error::Truncated);
        }
        let secondary_channel: u8 = if data[1] & 0x03 == 1 {
            if data[0] == 255 {
                0
            } else {
                data[0] + 1
            }
        } else if data[1] & 0x03 == 3 {
            if data[0] == 0 {
                255
            } else {
                data[0] - 1
            }
        } else {
            0
        };
        let width: u32 = if data[1] & 0x04 == 0 {
            20
        } else {
            40
        };
        Ok(HighThroughputOperation { width, primary_channel: data[0], secondary_channel })
    }
}

/// The most demanding modulation and coding scheme a spatial stream
/// supports under VHT operation.
#[derive(Clone, Copy, Debug, PartialEq, Eq, Structural)]
pub enum MaxVhtMcs {
    VhtMcs0to7,
    VhtMcs0to8,
    VhtMcs0to9,
    NotSupported,
}

/// The scheme a two-bit field encodes.
pub open spec fn spec_mcs(v: u8) -> MaxVhtMcs {
    if v == 0 {
        MaxVhtMcs::VhtMcs0to7
    } else if v == 1 {
        MaxVhtMcs::VhtMcs0to8
    } else if v == 2 {
        MaxVhtMcs::VhtMcs0to9
    } else {
        MaxVhtMcs::NotSupported
    }
}

impl MaxVhtMcs {
    /// The scheme a two-bit field encodes.
    pub fn from_wire(v: u8) -> (r: MaxVhtMcs)
        ensures
            r == spec_mcs(v),
    {
        match v {
            0u8 => MaxVhtMcs::VhtMcs0to7,
            1u8 => MaxVhtMcs::VhtMcs0to8,
            2u8 => MaxVhtMcs::VhtMcs0to9,
            _ => MaxVhtMcs::NotSupported,
        }
    }
}

/// A decoded very high throughput (VHT) operation element.
#[derive(Clone, Copy, Debug, PartialEq, Eq)]
pub struct VeryHighThroughputOperation {
    pub width: u32,
    pub channel: u8,
    pub secondary_channel: u8,
    pub max_vht_mcs_ss: [MaxVhtMcs; 8],
}

/// The channel width a VHT width-class field announces.
pub open spec fn spec_vht_width(b: Seq<u8>) -> u32 {
    if b[0] & 0x03 == 1 {
        80
    } else if b[0] & 0x03 == 2 {
        160
    } else if b[0] & 0x03 == 3 {
        80
    } else {
        40
    }
}

/// The per-stream maximum schemes of the two MCS octets: two bits
/// for each of eight spatial streams.
pub open spec fn spec_vht_mcs_entry(b: Seq<u8>, i: int) -> MaxVhtMcs {
    if i < 4 {
        spec_mcs((b[3] >> (2 * i)) & 3)
    } else {
        spec_mcs((b[4] >> (2 * (i - 4))) & 3)
    }
}

impl VeryHighThroughputOperation {
    /// Decode a VHT operation payload, which is exactly 5 octets.
    pub fn parse(data: &[u8]) -> (r: Result<VeryHighThroughputOperation, Error>)
        ensures
            r is Ok <==> data@.len() == 5,
            r is Err ==> r == Err::<VeryHighThroughputOperation, Error>(Error::Truncated),
            r matches Ok(x) ==> x.width == spec_vht_width(data@) && x.channel == data@[1]
                && x.secondary_channel == data@[2] && (forall|i: int|
                0 <= i < 8 ==> x.max_vht_mcs_ss@[i] == spec_vht_mcs_entry(data@, i)),
    {
        if data.len() != 5 {
            return Err(Error::Truncated);
        }
        let width: u32 = if data[0] & 0x03 == 1 {
            80
        } else if data[0] & 0x03 == 2 {
            160
        } else if data[0] & 0x03 == 3 {
            80
        } else {
            40
        };
        let max_vht_mcs_ss: [MaxVhtMcs; 8] = [
            MaxVhtMcs::from_wire(data[3] & 0x03),
            MaxVhtMcs::from_wire((data[3] >> 2) & 0x03),
            MaxVhtMcs::from_wire((data[3] >> 4) & 0x03),
            MaxVhtMcs::from_wire((data[3] >> 6) & 0x03),
            MaxVhtMcs::from_wire(data[4] & 0x03),
            MaxVhtMcs::from_wire((data[4] >> 2) & 0x03),
            MaxVhtMcs::from_wire((data[4] >> 4) & 0x03),
            MaxVhtMcs::from_wire((data[4] >> 6) & 0x03),
        ];
        proof {
            let b3 = data@[3];
            let b4 = data@[4];
            assert((b3 >> 0) & 3 == b3 & 3) by (bit_vector);
            assert((b4 >> 0) & 3 == b4 & 3) by (bit_vector);
        }
        Ok(
            VeryHighThroughputOperation {
                width,
                channel: data[1],
                secondary_channel: data[2],
                max_vht_mcs_ss,
            },
        )
    }
}

/// What a station may send while a channel switch is pending.
#[derive(Clone, Copy, Debug, PartialEq, Eq, Structural)]
pub enum ChannelSwitchMode {
    NoRestriction,
    NoTransmission,
}

/// The mode a wire octet encodes: one means transmission must stop,
/// every other value leaves transmission unrestricted.
pub open spec fn spec_switch_mode(v: u8) -> ChannelSwitchMode {
    if v == 1 {
        ChannelSwitchMode::NoTransmission
    } else {
        ChannelSwitchMode::NoRestriction
    }
}

impl ChannelSwitchMode {
    /// The mode a wire octet encodes.
    pub fn from_wire(v: u8) -> (r: ChannelSwitchMode)
        ensures
            r == spec_switch_mode(v),
    {
        if v == 1 {
            ChannelSwitchMode::NoTransmission
        } else {
            ChannelSwitchMode::NoRestriction
        }
    }
}

/// A decoded channel switch announcement (CSA) element.
#[derive(Clone, Copy, Debug, PartialEq, Eq, Structural)]
pub struct ChannelSwitchAnnouncement {
    pub switch_mode: ChannelSwitchMode,
    pub new_channel: u8,
    pub switch_count: u8,
}

impl ChannelSwitchAnnouncement {
    /// Decode a CSA payload, which is exactly 4 octets: the mode, the
    /// new channel, and the countdown.
    pub fn parse(data: &[u8]) -> (r: Result<ChannelSwitchAnnouncement, Error>)
        ensures
            r is Ok <==> data@.len() == 4,
            r is Err ==> r == Err::<ChannelSwitchAnnouncement, Error>(Error::Truncated),
            r matches Ok(x) ==> x == (ChannelSwitchAnnouncement {
                switch_mode: spec_switch_mode(data@[0]),
                new_channel: data@[1],
                switch_count: data@[2],
            }),
    {
        if data.len() != 4 {
            return Err(Error::Truncated);
        }
        Ok(
            ChannelSwitchAnnouncement {
                switch_mode: ChannelSwitchMode::from_wire(data[0]),
                new_channel: data[1],
                switch_count: data[2],
            },
        )
    }
}

/// A decoded extended channel switch announcement (ECSA) element.
#[derive(Clone, Copy, Debug, PartialEq, Eq, Structural)]
pub struct ExtendedChannelSwitchAnnouncement {
    pub switch_mode: ChannelSwitchMode,
    pub new_operating_class: u8,
    pub new_channel: u8,
    pub switch_count: u8,
}

impl ExtendedChannelSwitchAnnouncement {
    /// Decode an ECSA payload, which is exactly 4 octets: the mode,
    /// the new operating class, the new channel, and the countdown.
    pub fn parse(data: &[u8]) -> (r: Result<ExtendedChannelSwitchAnnouncement, Error>)
        ensures
            r is Ok <==> data@.len() == 4,
            r is Err ==> r == Err::<ExtendedChannelSwitchAnnouncement, Error>(Error::Truncated),
            r matches Ok(x) ==> x == (ExtendedChannelSwitchAnnouncement {
                switch_mode: spec_switch_mode(data@[0]),
                new_operating_class: data@[1],
                new_channel: data@[2],
                switch_count: data@[3],
            }),
    {
        if data.len() != 4 {
            return Err(Error::Truncated);
        }
        Ok(
            ExtendedChannelSwitchAnnouncement {
                switch_mode: ChannelSwitchMode::from_wire(data[0]),
                new_operating_class: data[1],
                new_channel: data[2],
                switch_count: data[3],
            },
        )
    }
}

/// A decoded country element: the regulatory country code.
#[derive(Debug)]
pub struct Country {
    pub alpha2: String,
}

/// Whether a country payload is well formed: at least six octets,
/// with the leading two decoding as text.
pub open spec fn country_ok(b: Seq<u8>) -> bool {
    b.len() >= 6 && valid_utf8(b.take(2))
}

impl Country {
    /// Decode a country payload: its first two octets are the
    /// ISO-3166 alpha-2 country code. Fails when fewer than six
    /// octets are present or the code is not text.
    pub fn parse(data: &[u8]) -> (r: Result<Country, Error>)
        ensures
            r is Ok <==> country_ok(data@),
            data@.len() < 6 ==> r == Err::<Country, Error>(Error::Truncated),
            data@.len() >= 6 && !valid_utf8(data@.take(2)) ==> r == Err::<Country, Error>(
                Error::Utf8,
            ),
            r matches Ok(c) ==> c.alpha2@ == decode_utf8(data@.take(2)),
    {
        if data.len() < 6 {
            return Err(Error::Truncated);
        }
        let head = slice_subrange(data, 0, 2);
        proof {
            assert(head@ =~= data@.take(2));
        }
        match crate::strings::utf8_to_string(head) {
            Some(alpha2) => Ok(Country { alpha2 }),
            None => Err(Error::Utf8),
        }
    }
}

/// The mathematical shape of a decoded VHT operation element.
pub struct VhtModel {
    pub width: u32,
    pub channel: u8,
    pub secondary_channel: u8,
    pub max_vht_mcs_ss: Seq<MaxVhtMcs>,
}

/// What a five-octet VHT operation payload decodes to.
pub open spec fn spec_vht(b: Seq<u8>) -> VhtModel {
    VhtModel {
        width: spec_vht_width(b),
        channel: b[1],
        secondary_channel: b[2],
        max_vht_mcs_ss: Seq::new(8, |i: int| spec_vht_mcs_entry(b, i)),
    }
}

/// An information element with its payload interpreted.
#[derive(Debug)]
pub enum InformationElement {
    Ssid(Ssid),
    Country(Country),
    ChannelSwitchAnnouncement(ChannelSwitchAnnouncement),
    RobustSecurityNetwork(RobustSecurityNetwork),
    ExtendedChannelSwitchAnnouncement(ExtendedChannelSwitchAnnouncement),
    HighThroughputOperation(HighThroughputOperation),
    VeryHighThroughputOperation(VeryHighThroughputOperation),
    Other(RawInformationElement),
}

/// The mathematical shape of an interpreted information element.
pub enum IeModel {
    Ssid(Seq<char>),
    Country(Seq<char>),
    ChannelSwitchAnnouncement(ChannelSwitchAnnouncement),
    RobustSecurityNetwork(RsnModel),
    ExtendedChannelSwitchAnnouncement(ExtendedChannelSwitchAnnouncement),
    HighThroughputOperation(HighThroughputOperation),
    VeryHighThroughputOperation(VhtModel),
    Other(u8, Seq<u8>),
}

/// The model of one interpreted element.
pub open spec fn ie_model(ie: InformationElement) -> IeModel {
    match ie {
        InformationElement::Ssid(s) => IeModel::Ssid(s.ssid@),
        InformationElement::Country(c) => IeModel::Country(c.alpha2@),
        InformationElement::ChannelSwitchAnnouncement(c) => IeModel::ChannelSwitchAnnouncement(c),
        InformationElement::RobustSecurityNetwork(x) => IeModel::RobustSecurityNetwork(
            rsn_model(x),
        ),
        InformationElement::ExtendedChannelSwitchAnnouncement(c)
            => IeModel::ExtendedChannelSwitchAnnouncement(c),
        InformationElement::HighThroughputOperation(h) => IeModel::HighThroughputOperation(h),
        InformationElement::VeryHighThroughputOperation(v) => IeModel::VeryHighThroughputOperation(
            VhtModel {
                width: v.width,
                channel: v.channel,
                secondary_channel: v.secondary_channel,
                max_vht_mcs_ss: v.max_vht_mcs_ss@,
            },
        ),
        InformationElement::Other(raw) => IeModel::Other(raw.identifier, raw.data@),
    }
}

/// The models of an interpreted element list.
pub open spec fn ie_models(ies: Seq<InformationElement>) -> Seq<IeModel> {
    ies.map(|i: int, e: InformationElement| ie_model(e))
}

/// What a payload decodes to under a recognized element identifier,
/// or the error its typed parser reports.
pub open spec fn spec_ie_from(id: InformationElementId, b: Seq<u8>) -> Result<IeModel, Error> {
    match id {
        InformationElementId::Ssid => Ok(IeModel::Ssid(spec_ssid(b))),
        InformationElementId::Country => if b.len() < 6 {
            Err(Error::Truncated)
        } else if !valid_utf8(b.take(2)) {
            Err(Error::Utf8)
        } else {
            Ok(IeModel::Country(decode_utf8(b.take(2))))
        },
        InformationElementId::ChannelSwitchAnnouncement => if b.len() == 4 {
            Ok(
                IeModel::ChannelSwitchAnnouncement(
                    ChannelSwitchAnnouncement {
                        switch_mode: spec_switch_mode(b[0]),
                        new_channel: b[1],
                        switch_count: b[2],
                    },
                ),
            )
        } else {
            Err(Error::Truncated)
        },
        InformationElementId::RobustSecurityNetwork => if rsn_ok(b) {
            Ok(IeModel::RobustSecurityNetwork(spec_rsn(b)))
        } else {
            Err(Error::Truncated)
        },
        InformationElementId::ExtendedChannelSwitchAnnouncement => if b.len() == 4 {
            Ok(
                IeModel::ExtendedChannelSwitchAnnouncement(
                    ExtendedChannelSwitchAnnouncement {
                        switch_mode: spec_switch_mode(b[0]),
                        new_operating_class: b[1],
                        new_channel: b[2],
                        switch_count: b[3],
                    },
                ),
            )
        } else {
            Err(Error::Truncated)
        },
        InformationElementId::HighThroughputOperation => if b.len() == 22 {
            Ok(IeModel::HighThroughputOperation(spec_ht(b)))
        } else {
            Err(Error::Truncated)
        },
        InformationElementId::VeryHighThroughputOperation => if b.len() == 5 {
            Ok(IeModel::VeryHighThroughputOperation(spec_vht(b)))
        } else {
            Err(Error::Truncated)
        },
    }
}

/// What the element at the front of `b` decodes to: a recognized
/// identifier dispatches to its typed parser, an unrecognized one
/// keeps the element raw.
pub open spec fn spec_ie_parse(b: Seq<u8>) -> Result<IeModel, Error> {
    if !raw_ie_ok(b) {
        Err(Error::Truncated)
    } else {
        match InformationElementId::spec_convert_from(b[0]) {
            Some(id) => spec_ie_from(id, raw_ie_payload(b)),
            None => Ok(IeModel::Other(b[0], raw_ie_payload(b))),
        }
    }
}

/// The interpreted elements laid head to tail in `b`. A truncated
/// remainder ends the walk silently, but a recognized element whose
/// typed parser fails fails the whole walk.
pub open spec fn spec_parse_all_ies(b: Seq<u8>) -> Result<Seq<IeModel>, Error>
    decreases b.len(),
{
    if !raw_ie_ok(b) {
        Ok(Seq::empty())
    } else {
        let head = (match InformationElementId::spec_convert_from(b[0]) {
            Some(id) => spec_ie_from(id, raw_ie_payload(b)),
            None => Ok(IeModel::Other(b[0], raw_ie_payload(b))),
        });
        match head {
            Err(e) => Err(e),
            Ok(m) => if b[1] + 2 < b.len() {
                match spec_parse_all_ies(b.skip(b[1] + 2)) {
                    Ok(ms) => Ok(seq![m] + ms),
                    Err(e) => Err(e),
                }
            } else {
                Ok(seq![m])
            },
        }
    }
}

impl InformationElement {
    /// Interpret a payload under a recognized element identifier.
    pub fn from(id: InformationElementId, data: &[u8]) -> (r: Result<InformationElement, Error>)
        ensures
            (match spec_ie_from(id, data@) {
                Ok(m) => r matches Ok(ie) && ie_model(ie) == m,
                Err(e) => r == Err::<InformationElement, Error>(e),
            }),
    {
        match id {
            InformationElementId::Ssid => {
                match Ssid::parse(data) {
                    Ok(ie) => Ok(InformationElement::Ssid(ie)),
                    Err(e) => Err(e),
                }
            },
            InformationElementId::Country => {
                match Country::parse(data) {
                    Ok(ie) => Ok(InformationElement::Country(ie)),
                    Err(e) => Err(e),
                }
            },
            InformationElementId::ChannelSwitchAnnouncement => {
                match ChannelSwitchAnnouncement::parse(data) {
                    Ok(ie) => Ok(InformationElement::ChannelSwitchAnnouncement(ie)),
                    Err(e) => Err(e),
                }
            },
            InformationElementId::RobustSecurityNetwork => {
                match RobustSecurityNetwork::parse(data) {
                    Ok(ie) => Ok(InformationElement::RobustSecurityNetwork(ie)),
                    Err(e) => Err(e),
                }
            },
            InformationElementId::ExtendedChannelSwitchAnnouncement => {
                match ExtendedChannelSwitchAnnouncement::parse(data) {
                    Ok(ie) => Ok(InformationElement::ExtendedChannelSwitchAnnouncement(ie)),
                    Err(e) => Err(e),
                }
            },
            InformationElementId::HighThroughputOperation => {
                match HighThroughputOperation::parse(data) {
                    Ok(ie) => Ok(InformationElement::HighThroughputOperation(ie)),
                    Err(e) => Err(e),
                }
            },
            InformationElementId::VeryHighThroughputOperation => {
                match VeryHighThroughputOperation::parse(data) {
                    Ok(ie) => {
                        proof {
                            assert(ie.max_vht_mcs_ss@ =~= spec_vht(data@).max_vht_mcs_ss);
                        }
                        Ok(InformationElement::VeryHighThroughputOperation(ie))
                    },
                    Err(e) => Err(e),
                }
            },
        }
    }

    /// Parse and interpret the element at the front of `data`.
    pub fn parse(data: &[u8]) -> (r: Result<InformationElement, Error>)
        ensures
            (match spec_ie_parse(data@) {
                Ok(m) => r matches Ok(ie) && ie_model(ie) == m,
                Err(e) => r == Err::<InformationElement, Error>(e),
            }),
    {
        let raw = match RawInformationElement::parse(data) {
            Ok(raw) => raw,
            Err(e) => {
                return Err(e);
            },
        };
        match raw.ie_id() {
            Some(id) => InformationElement::from(id, raw.data.as_slice()),
            None => Ok(InformationElement::Other(raw)),
        }
    }

    /// The identifier of an interpreted element, `None` for a raw
    /// element whose identifier the library does not know.
    pub fn identifier(&self) -> (r: Option<InformationElementId>)
        ensures
            r == (match *self {
                InformationElement::Ssid(_) => Some(InformationElementId::Ssid),
                InformationElement::Country(_) => Some(InformationElementId::Country),
                InformationElement::ChannelSwitchAnnouncement(_) => Some(
                    InformationElementId::ChannelSwitchAnnouncement,
                ),
                InformationElement::RobustSecurityNetwork(_) => Some(
                    InformationElementId::RobustSecurityNetwork,
                ),
                InformationElement::ExtendedChannelSwitchAnnouncement(_) => Some(
                    InformationElementId::ExtendedChannelSwitchAnnouncement,
                ),
                InformationElement::HighThroughputOperation(_) => Some(
                    InformationElementId::HighThroughputOperation,
                ),
                InformationElement::VeryHighThroughputOperation(_) => Some(
                    InformationElementId::VeryHighThroughputOperation,
                ),
                InformationElement::Other(ref raw) => InformationElementId::spec_convert_from(
                    raw.identifier,
                ),
            }),
    {
        match *self {
            InformationElement::Ssid(_) => Some(InformationElementId::Ssid),
            InformationElement::Country(_) => Some(InformationElementId::Country),
            InformationElement::ChannelSwitchAnnouncement(_) => Some(
                InformationElementId::ChannelSwitchAnnouncement,
            ),
            InformationElement::RobustSecurityNetwork(_) => Some(
                InformationElementId::RobustSecurityNetwork,
            ),
            InformationElement::ExtendedChannelSwitchAnnouncement(_) => Some(
                InformationElementId::ExtendedChannelSwitchAnnouncement,
            ),
            InformationElement::HighThroughputOperation(_) => Some(
                InformationElementId::HighThroughputOperation,
            ),
            InformationElement::VeryHighThroughputOperation(_) => Some(
                InformationElementId::VeryHighThroughputOperation,
            ),
            InformationElement::Other(ref raw) => InformationElementId::convert_from(
                raw.identifier,
            ),
        }
    }

    /// Parse and interpret every element laid head to tail in `data`.
    /// A truncated remainder ends the walk silently; a recognized
    /// element whose typed parser fails fails the whole walk.
    #[verifier::loop_isolation(false)]
    pub fn parse_all(data: &[u8]) -> (r: Result<Vec<InformationElement>, Error>)
        ensures
            (match spec_parse_all_ies(data@) {
                Ok(ms) => r matches Ok(v) && ie_models(v@) == ms,
                Err(e) => r == Err::<Vec<InformationElement>, Error>(e),
            }),
    {
        let mut ies: Vec<InformationElement> = Vec::new();
        let mut pos: usize = 0;
        let mut done: bool = false;
        proof {
            assert(data@.skip(0) =~= data@);
            assert(ie_models(ies@) =~= Seq::<IeModel>::empty());
        }
        while !done
            invariant
                pos <= data@.len(),
                !done ==> (match spec_parse_all_ies(data@.skip(pos as int)) {
                    Ok(ms) => spec_parse_all_ies(data@) == Ok::<Seq<IeModel>, Error>(
                        ie_models(ies@) + ms,
                    ),
                    Err(e) => spec_parse_all_ies(data@) == Err::<Seq<IeModel>, Error>(e),
                }),
                done ==> spec_parse_all_ies(data@) == Ok::<Seq<IeModel>, Error>(ie_models(ies@)),
            decreases data@.len() - pos + (if done { 0int } else { 1int }),
        {
            let sub = slice_subrange(data, pos, data.len());
            let ghost prev = ies@;
            match RawInformationElement::parse(sub) {
                Ok(raw) => {
                    let consumed = raw.data.len() + 2;
                    let element = match raw.ie_id() {
                        Some(id) => {
                            match InformationElement::from(id, raw.data.as_slice()) {
                                Ok(ie) => ie,
                                Err(e) => {
                                    return Err(e);
                                },
                            }
                        },
                        None => InformationElement::Other(raw),
                    };
                    proof {
                        assert(ie_models(prev.push(element)) =~= ie_models(prev) + seq![
                            ie_model(element),
                        ]);
                    }
                    ies.push(element);
                    if consumed < data.len() - pos {
                        proof {
                            assert(data@.skip(pos as int).skip(consumed as int) =~= data@.skip(
                                pos + consumed,
                            ));
                        }
                        pos = pos + consumed;
                    } else {
                        done = true;
                    }
                    proof {
                        let rest = spec_parse_all_ies(data@.skip(pos as int));
                        match rest {
                            Ok(ms) => {
                                assert((ie_models(prev) + seq![ie_model(element)]) + ms
                                    =~= ie_models(prev) + (seq![ie_model(element)] + ms));
                            },
                            Err(_) => {},
                        }
                    }
                },
                Err(_) => {
                    done = true;
                },
            }
        }
        Ok(ies)
    }
}

} // verus!
