//! Userspace netlink transport and nl80211 parsing.
//!
//! The crate provides the wire-format pieces of a Linux netlink
//! conversation: a little-endian codec for fixed-width values, the
//! netlink attribute (TLV) codec, message header framing, generic
//! netlink messages, and the 802.11 parsers for management-frame
//! information elements and frame headers.

use vstd::prelude::*;

pub mod align;
pub mod attribute;
pub mod attributes;
pub mod commands;
pub mod information_element;
pub mod information_element_ids;
pub mod codec;
pub mod error;
pub mod frame;
pub mod generic;
pub mod hardware_address;
pub mod header;
pub mod message;
pub mod regulatory;
pub mod route;
pub mod socket;
pub mod strings;
pub mod unpack;
pub mod variant;
pub mod wireless_interface;
pub mod wireless_phy;

pub use attribute::Attribute;
pub use attribute::nested_attribute_array;
pub use attribute::parse_attributes;
pub use attributes::InterfaceType;
pub use commands::Command;
pub use error::Error;
pub use frame::Frame;
pub use generic::Family;
pub use hardware_address::HardwareAddress;
pub use header::Header;
pub use information_element_ids::InformationElementId;
pub use message::DataMessage;
pub use message::ErrorMessage;
pub use message::Message;
pub use message::MessageMode;
pub use regulatory::RegulatoryChange;
pub use regulatory::RegulatoryInformation;
pub use regulatory::RegulatoryInitiator;
pub use regulatory::RegulatoryRegion;
pub use regulatory::RegulatoryRule;
pub use socket::Address;
pub use socket::ConvertFrom;
pub use socket::Protocol;
pub use socket::Sendable;
pub use socket::SocketState;
pub use unpack::LittleUnpack;
pub use unpack::unpack_vec;
pub use variant::MultiValue;
pub use variant::NativeParse;
pub use variant::NativeRead;
pub use variant::NativeWrite;
pub use wireless_interface::WirelessDeviceId;
pub use wireless_interface::WirelessInterface;
pub use wireless_interface::interfaces_from_messages;
pub use wireless_phy::WirelessPhy;
pub use wireless_phy::phys_from_messages;

verus! {

/// Round `n` up to the next multiple of four.
pub open spec fn spec_align4(n: int) -> int {
    ((n + 3) / 4) * 4
}

} // verus!
