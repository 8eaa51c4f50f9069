//! The nl80211 attribute identifiers the library reads and writes.
//!
//! The numeric values are fixed by the kernel's nl80211 ABI; the
//! tables are hand-maintained and cover the attributes this library
//! interprets. Unknown wire values convert to `None` and their
//! attributes are passed over, never rejected.

use vstd::prelude::*;
use crate::socket::ConvertFrom;

verus! {

/// A top-level nl80211 attribute, with its kernel wire value.
#[derive(Clone, Copy, Debug, PartialEq, Eq, Structural)]
pub enum Attribute {
    Wiphy,
    WiphyName,
    Ifindex,
    Ifname,
    Iftype,
    Mac,
    SupportedIftypes,
    RegAlpha2,
    RegRules,
    WiphyChannelType,
    RegInitiator,
    RegType,
    SupportedCommands,
    Ssid,
    WiphyTxPowerLevel,
    SchedScanInterval,
    SoftwareIftypes,
    DfsRegion,
    Wdev,
    ChannelWidth,
}

impl Attribute {
    /// The attribute's wire value.
    pub open spec fn spec_wire(&self) -> u16 {
        match *self {
            Attribute::Wiphy => 1,
            Attribute::WiphyName => 2,
            Attribute::Ifindex => 3,
            Attribute::Ifname => 4,
            Attribute::Iftype => 5,
            Attribute::Mac => 6,
            Attribute::SupportedIftypes => 32,
            Attribute::RegAlpha2 => 33,
            Attribute::RegRules => 34,
            Attribute::WiphyChannelType => 39,
            Attribute::RegInitiator => 48,
            Attribute::RegType => 49,
            Attribute::SupportedCommands => 50,
            Attribute::Ssid => 52,
            Attribute::WiphyTxPowerLevel => 98,
            Attribute::SchedScanInterval => 119,
            Attribute::SoftwareIftypes => 121,
            Attribute::DfsRegion => 146,
            Attribute::Wdev => 153,
            Attribute::ChannelWidth => 159,
        }
    }

    /// The attribute's wire value.
    pub fn to_wire(&self) -> (r: u16)
        ensures
            r == self.spec_wire(),
    {
        match *self {
            Attribute::Wiphy => 1,
            Attribute::WiphyName => 2,
            Attribute::Ifindex => 3,
            Attribute::Ifname => 4,
            Attribute::Iftype => 5,
            Attribute::Mac => 6,
            Attribute::SupportedIftypes => 32,
            Attribute::RegAlpha2 => 33,
            Attribute::RegRules => 34,
            Attribute::WiphyChannelType => 39,
            Attribute::RegInitiator => 48,
            Attribute::RegType => 49,
            Attribute::SupportedCommands => 50,
            Attribute::Ssid => 52,
            Attribute::WiphyTxPowerLevel => 98,
            Attribute::SchedScanInterval => 119,
            Attribute::SoftwareIftypes => 121,
            Attribute::DfsRegion => 146,
            Attribute::Wdev => 153,
            Attribute::ChannelWidth => 159,
        }
    }
}

impl ConvertFrom<u16> for Attribute {
    open spec fn spec_convert_from(value: u16) -> Option<Attribute> {
        match value {
            1u16 => Some(Attribute::Wiphy),
            2u16 => Some(Attribute::WiphyName),
            3u16 => Some(Attribute::Ifindex),
            4u16 => Some(Attribute::Ifname),
            5u16 => Some(Attribute::Iftype),
            6u16 => Some(Attribute::Mac),
            32u16 => Some(Attribute::SupportedIftypes),
            33u16 => Some(Attribute::RegAlpha2),
            34u16 => Some(Attribute::RegRules),
            39u16 => Some(Attribute::WiphyChannelType),
            48u16 => Some(Attribute::RegInitiator),
            49u16 => Some(Attribute::RegType),
            50u16 => Some(Attribute::SupportedCommands),
            52u16 => Some(Attribute::Ssid),
            98u16 => Some(Attribute::WiphyTxPowerLevel),
            119u16 => Some(Attribute::SchedScanInterval),
            121u16 => Some(Attribute::SoftwareIftypes),
            146u16 => Some(Attribute::DfsRegion),
            153u16 => Some(Attribute::Wdev),
            159u16 => Some(Attribute::ChannelWidth),
            _ => None,
        }
    }

    fn convert_from(value: u16) -> (r: Option<Attribute>) {
        match value {
            1u16 => Some(Attribute::Wiphy),
            2u16 => Some(Attribute::WiphyName),
            3u16 => Some(Attribute::Ifindex),
            4u16 => Some(Attribute::Ifname),
            5u16 => Some(Attribute::Iftype),
            6u16 => Some(Attribute::Mac),
            32u16 => Some(Attribute::SupportedIftypes),
            33u16 => Some(Attribute::RegAlpha2),
            34u16 => Some(Attribute::RegRules),
            39u16 => Some(Attribute::WiphyChannelType),
            48u16 => Some(Attribute::RegInitiator),
            49u16 => Some(Attribute::RegType),
            50u16 => Some(Attribute::SupportedCommands),
            52u16 => Some(Attribute::Ssid),
            98u16 => Some(Attribute::WiphyTxPowerLevel),
            119u16 => Some(Attribute::SchedScanInterval),
            121u16 => Some(Attribute::SoftwareIftypes),
            146u16 => Some(Attribute::DfsRegion),
            153u16 => Some(Attribute::Wdev),
            159u16 => Some(Attribute::ChannelWidth),
            _ => None,
        }
    }
}

/// An nl80211 interface type (operating mode).
#[derive(Clone, Copy, Debug, PartialEq, Eq, Structural)]
pub enum InterfaceType {
    Unspecified,
    Adhoc,
    Station,
    Ap,
    ApVlan,
    Wds,
    Monitor,
    MeshPoint,
    P2pClient,
    P2pGo,
    P2pDevice,
    Ocb,
    Nan,
}

impl InterfaceType {
    /// The interface type's wire value.
    pub open spec fn spec_wire(&self) -> u32 {
        match *self {
            InterfaceType::Unspecified => 0,
            InterfaceType::Adhoc => 1,
            InterfaceType::Station => 2,
            InterfaceType::Ap => 3,
            InterfaceType::ApVlan => 4,
            InterfaceType::Wds => 5,
            InterfaceType::Monitor => 6,
            InterfaceType::MeshPoint => 7,
            InterfaceType::P2pClient => 8,
            InterfaceType::P2pGo => 9,
            InterfaceType::P2pDevice => 10,
            InterfaceType::Ocb => 11,
            InterfaceType::Nan => 12,
        }
    }

    /// The interface type's wire value.
    pub fn to_wire(&self) -> (r: u32)
        ensures
            r == self.spec_wire(),
    {
        match *self {
            InterfaceType::Unspecified => 0,
            InterfaceType::Adhoc => 1,
            InterfaceType::Station => 2,
            InterfaceType::Ap => 3,
            InterfaceType::ApVlan => 4,
            InterfaceType::Wds => 5,
            InterfaceType::Monitor => 6,
            InterfaceType::MeshPoint => 7,
            InterfaceType::P2pClient => 8,
            InterfaceType::P2pGo => 9,
            InterfaceType::P2pDevice => 10,
            InterfaceType::Ocb => 11,
            InterfaceType::Nan => 12,
        }
    }

    /// The symbol for a wire value, unknown values reading as
    /// `Unspecified`.
    pub open spec fn spec_from_wire(value: u32) -> InterfaceType {
        match Self::spec_convert_from(value) {
            Some(t) => t,
            None => InterfaceType::Unspecified,
        }
    }

    /// The symbol for a wire value, unknown values reading as
    /// `Unspecified`.
    pub fn from_wire(value: u32) -> (r: InterfaceType)
        ensures
            r == Self::spec_from_wire(value),
    {
        match Self::convert_from(value) {
            Some(t) => t,
            None => InterfaceType::Unspecified,
        }
    }
}

impl ConvertFrom<u32> for InterfaceType {
    open spec fn spec_convert_from(value: u32) -> Option<InterfaceType> {
        match value {
            0u32 => Some(InterfaceType::Unspecified),
            1u32 => Some(InterfaceType::Adhoc),
            2u32 => Some(InterfaceType::Station),
            3u32 => Some(InterfaceType::Ap),
            4u32 => Some(InterfaceType::ApVlan),
            5u32 => Some(InterfaceType::Wds),
            6u32 => Some(InterfaceType::Monitor),
            7u32 => Some(InterfaceType::MeshPoint),
            8u32 => Some(InterfaceType::P2pClient),
            9u32 => Some(InterfaceType::P2pGo),
            10u32 => Some(InterfaceType::P2pDevice),
            11u32 => Some(InterfaceType::Ocb),
            12u32 => Some(InterfaceType::Nan),
            _ => None,
        }
    }

    fn convert_from(value: u32) -> (r: Option<InterfaceType>) {
        match value {
            0u32 => Some(InterfaceType::Unspecified),
            1u32 => Some(InterfaceType::Adhoc),
            2u32 => Some(InterfaceType::Station),
            3u32 => Some(InterfaceType::Ap),
            4u32 => Some(InterfaceType::ApVlan),
            5u32 => Some(InterfaceType::Wds),
            6u32 => Some(InterfaceType::Monitor),
            7u32 => Some(InterfaceType::MeshPoint),
            8u32 => Some(InterfaceType::P2pClient),
            9u32 => Some(InterfaceType::P2pGo),
            10u32 => Some(InterfaceType::P2pDevice),
            11u32 => Some(InterfaceType::Ocb),
            12u32 => Some(InterfaceType::Nan),
            _ => None,
        }
    }
}

/// An attribute of one regulatory rule, nested under the rule list.
#[derive(Clone, Copy, Debug, PartialEq, Eq, Structural)]
pub enum RegulatoryRuleAttribute {
    Flags,
    RangeStart,
    RangeEnd,
    MaximumBandwidth,
    MaximumAntennaGain,
    MaximumEffectiveIsotropicRadiatedPower,
    ChannelAvailableCheckTime,
}

impl RegulatoryRuleAttribute {
    /// The attribute's wire value.
    pub open spec fn spec_wire(&self) -> u16 {
        match *self {
            RegulatoryRuleAttribute::Flags => 1,
            RegulatoryRuleAttribute::RangeStart => 2,
            RegulatoryRuleAttribute::RangeEnd => 3,
            RegulatoryRuleAttribute::MaximumBandwidth => 4,
            RegulatoryRuleAttribute::MaximumAntennaGain => 5,
            RegulatoryRuleAttribute::MaximumEffectiveIsotropicRadiatedPower => 6,
            RegulatoryRuleAttribute::ChannelAvailableCheckTime => 7,
        }
    }

    /// The attribute's wire value.
    pub fn to_wire(&self) -> (r: u16)
        ensures
            r == self.spec_wire(),
    {
        match *self {
            RegulatoryRuleAttribute::Flags => 1,
            RegulatoryRuleAttribute::RangeStart => 2,
            RegulatoryRuleAttribute::RangeEnd => 3,
            RegulatoryRuleAttribute::MaximumBandwidth => 4,
            RegulatoryRuleAttribute::MaximumAntennaGain => 5,
            RegulatoryRuleAttribute::MaximumEffectiveIsotropicRadiatedPower => 6,
            RegulatoryRuleAttribute::ChannelAvailableCheckTime => 7,
        }
    }
}

impl ConvertFrom<u16> for RegulatoryRuleAttribute {
    open spec fn spec_convert_from(value: u16) -> Option<RegulatoryRuleAttribute> {
        match value {
            1u16 => Some(RegulatoryRuleAttribute::Flags),
            2u16 => Some(RegulatoryRuleAttribute::RangeStart),
            3u16 => Some(RegulatoryRuleAttribute::RangeEnd),
            4u16 => Some(RegulatoryRuleAttribute::MaximumBandwidth),
            5u16 => Some(RegulatoryRuleAttribute::MaximumAntennaGain),
            6u16 => Some(RegulatoryRuleAttribute::MaximumEffectiveIsotropicRadiatedPower),
            7u16 => Some(RegulatoryRuleAttribute::ChannelAvailableCheckTime),
            _ => None,
        }
    }

    fn convert_from(value: u16) -> (r: Option<RegulatoryRuleAttribute>) {
        match value {
            1u16 => Some(RegulatoryRuleAttribute::Flags),
            2u16 => Some(RegulatoryRuleAttribute::RangeStart),
            3u16 => Some(RegulatoryRuleAttribute::RangeEnd),
            4u16 => Some(RegulatoryRuleAttribute::MaximumBandwidth),
            5u16 => Some(RegulatoryRuleAttribute::MaximumAntennaGain),
            6u16 => Some(RegulatoryRuleAttribute::MaximumEffectiveIsotropicRadiatedPower),
            7u16 => Some(RegulatoryRuleAttribute::ChannelAvailableCheckTime),
            _ => None,
        }
    }
}

} // verus!
