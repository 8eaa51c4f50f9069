//! The 802.11 information element identifiers the library interprets.
//!
//! The values come from the 802.11 standard's element id table.
//! Unknown wire values convert to `None` and their elements are kept
//! raw, never rejected.

use vstd::prelude::*;
use crate::socket::ConvertFrom;

verus! {

/// An 802.11 information element identifier.
#[derive(Clone, Copy, Debug, PartialEq, Eq, Structural)]
pub enum InformationElementId {
    Ssid,
    Country,
    ChannelSwitchAnnouncement,
    RobustSecurityNetwork,
    ExtendedChannelSwitchAnnouncement,
    HighThroughputOperation,
    VeryHighThroughputOperation,
}

impl InformationElementId {
    /// The element's wire identifier.
    pub open spec fn spec_wire(&self) -> u8 {
        match *self {
            InformationElementId::Ssid => 0,
            InformationElementId::Country => 7,
            InformationElementId::ChannelSwitchAnnouncement => 37,
            InformationElementId::RobustSecurityNetwork => 48,
            InformationElementId::ExtendedChannelSwitchAnnouncement => 60,
            InformationElementId::HighThroughputOperation => 61,
            InformationElementId::VeryHighThroughputOperation => 192,
        }
    }

    /// The element's wire identifier.
    pub fn to_wire(&self) -> (r: u8)
        ensures
            r == self.spec_wire(),
    {
        match *self {
            InformationElementId::Ssid => 0,
            InformationElementId::Country => 7,
            InformationElementId::ChannelSwitchAnnouncement => 37,
            InformationElementId::RobustSecurityNetwork => 48,
            InformationElementId::ExtendedChannelSwitchAnnouncement => 60,
            InformationElementId::HighThroughputOperation => 61,
            InformationElementId::VeryHighThroughputOperation => 192,
        }
    }
}

impl ConvertFrom<u8> for InformationElementId {
    open spec fn spec_convert_from(value: u8) -> Option<InformationElementId> {
        match value {
            0u8 => Some(InformationElementId::Ssid),
            7u8 => Some(InformationElementId::Country),
            37u8 => Some(InformationElementId::ChannelSwitchAnnouncement),
            48u8 => Some(InformationElementId::RobustSecurityNetwork),
            60u8 => Some(InformationElementId::ExtendedChannelSwitchAnnouncement),
            61u8 => Some(InformationElementId::HighThroughputOperation),
            192u8 => Some(InformationElementId::VeryHighThroughputOperation),
            _ => None,
        }
    }

    fn convert_from(value: u8) -> (r: Option<InformationElementId>) {
        match value {
            0u8 => Some(InformationElementId::Ssid),
            7u8 => Some(InformationElementId::Country),
            37u8 => Some(InformationElementId::ChannelSwitchAnnouncement),
            48u8 => Some(InformationElementId::RobustSecurityNetwork),
            60u8 => Some(InformationElementId::ExtendedChannelSwitchAnnouncement),
            61u8 => Some(InformationElementId::HighThroughputOperation),
            192u8 => Some(InformationElementId::VeryHighThroughputOperation),
            _ => None,
        }
    }
}

} // verus!
