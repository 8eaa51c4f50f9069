//! 802.11 MAC frame headers.
//!
//! The frame-control field selects the frame's type and subtype and
//! carries the single-bit flags; the rest of the header holds the
//! duration, the addresses, and the sequence field.

use vstd::prelude::*;
use vstd::slice::slice_subrange;
use crate::codec::le_unpack;
use crate::error::Error;
use crate::hardware_address::HardwareAddress;
use crate::unpack::LittleUnpack;

verus! {

/// The four frame classes of the two type bits.
#[derive(Clone, Copy, Debug, PartialEq, Eq, Structural)]
pub enum FrameType {
    Management,
    Control,
    Data,
    Reserved,
}

/// The subtype of a frame, read against its type's table.
#[derive(Clone, Copy, Debug, PartialEq, Eq, Structural)]
pub enum FrameSubtype {
    Reserved,
    AssociationRequest,
    AssociationResponse,
    ReassociationRequest,
    ReassociationResponse,
    ProbeRequest,
    ProbeResponse,
    TimingAdvertisment,
    Beacon,
    AnnouncementTrafficIndication,
    Disassociation,
    Authentication,
    Deauthentication,
    Action,
    ActionNoAcknowledge,
    ControlWrapper,
    BlockAcknowledgeRequest,
    BlockAcknowledge,
    PowerSavePoll,
    RequestToSend,
    ClearToSend,
    Acknowledge,
    ContentionFreeEnd,
    ContentionFreeEndAcknowledge,
    Data,
    DataContentionFreeAcknowledge,
    DataContentionFreePoll,
    DataContentionFreeAcknowledgePoll,
    Null,
    NullContentionFreeAcknowledge,
    NullContentionFreePoll,
    NullContentionFreeAcknowledgePoll,
    QualityOfService,
    QualityOfServiceContentionFreeAcknowledge,
    QualityOfServiceContentionFreePoll,
    QualityOfServiceContentionFreeAcknowledgePoll,
    NullQualityOfService,
    NullQualityOfServiceContentionFreeAcknowledge,
    NullQualityOfServiceContentionFreePoll,
    NullQualityOfServiceContentionFreeAcknowledgePoll,
}

/// The frame-control field of a MAC header.
#[derive(Clone, Copy, Debug, PartialEq, Eq, Structural)]
pub struct FrameControl {
    pub field: u16,
}

/// The frame type of bits two and three of the frame-control field.
pub open spec fn spec_frame_type(f: u16) -> FrameType {
    if (f >> 2) & 0x03 == 0 {
        FrameType::Management
    } else if (f >> 2) & 0x03 == 1 {
        FrameType::Control
    } else if (f >> 2) & 0x03 == 2 {
        FrameType::Data
    } else {
        FrameType::Reserved
    }
}

/// The management-frame subtype table.
pub open spec fn spec_management_subtype(s: u16) -> FrameSubtype {
    if s == 0x0 {
        FrameSubtype::AssociationRequest
    } else if s == 0x1 {
        FrameSubtype::AssociationResponse
    } else if s == 0x2 {
        FrameSubtype::ReassociationRequest
    } else if s == 0x3 {
        FrameSubtype::ReassociationResponse
    } else if s == 0x4 {
        FrameSubtype::ProbeRequest
    } else if s == 0x5 {
        FrameSubtype::ProbeResponse
    } else if s == 0x6 {
        FrameSubtype::TimingAdvertisment
    } else if s == 0x8 {
        FrameSubtype::Beacon
    } else if s == 0x9 {
        FrameSubtype::AnnouncementTrafficIndication
    } else if s == 0xa {
        FrameSubtype::Disassociation
    } else if s == 0xb {
        FrameSubtype::Authentication
    } else if s == 0xc {
        FrameSubtype::Deauthentication
    } else if s == 0xd {
        FrameSubtype::Action
    } else if s == 0xe {
        FrameSubtype::ActionNoAcknowledge
    } else {
        FrameSubtype::Reserved
    }
}

/// The control-frame subtype table.
pub open spec fn spec_control_subtype(s: u16) -> FrameSubtype {
    if s == 0x7 {
        FrameSubtype::ControlWrapper
    } else if s == 0x8 {
        FrameSubtype::BlockAcknowledgeRequest
    } else if s == 0x9 {
        FrameSubtype::BlockAcknowledge
    } else if s == 0xa {
        FrameSubtype::PowerSavePoll
    } else if s == 0xb {
        FrameSubtype::RequestToSend
    } else if s == 0xc {
        FrameSubtype::ClearToSend
    } else if s == 0xd {
        FrameSubtype::Acknowledge
    } else if s == 0xe {
        FrameSubtype::ContentionFreeEnd
    } else if s == 0xf {
        FrameSubtype::ContentionFreeEndAcknowledge
    } else {
        FrameSubtype::Reserved
    }
}

/// The data-frame subtype table.
pub open spec fn spec_data_subtype(s: u16) -> FrameSubtype {
    if s == 0x0 {
        FrameSubtype::Data
    } else if s == 0x1 {
        FrameSubtype::DataContentionFreeAcknowledge
    } else if s == 0x2 {
        FrameSubtype::DataContentionFreePoll
    } else if s == 0x3 {
        FrameSubtype::DataContentionFreeAcknowledgePoll
    } else if s == 0x4 {
        FrameSubtype::Null
    } else if s == 0x5 {
        FrameSubtype::NullContentionFreeAcknowledge
    } else if s == 0x6 {
        FrameSubtype::NullContentionFreePoll
    } else if s == 0x7 {
        FrameSubtype::NullContentionFreeAcknowledgePoll
    } else if s == 0x8 {
        FrameSubtype::QualityOfService
    } else if s == 0x9 {
        FrameSubtype::QualityOfServiceContentionFreeAcknowledge
    } else if s == 0xa {
        FrameSubtype::QualityOfServiceContentionFreePoll
    } else if s == 0xb {
        FrameSubtype::QualityOfServiceContentionFreeAcknowledgePoll
    } else if s == 0xc {
        FrameSubtype::NullQualityOfService
    } else if s == 0xd {
        FrameSubtype::NullQualityOfServiceContentionFreeAcknowledge
    } else if s == 0xe {
        FrameSubtype::NullQualityOfServiceContentionFreePoll
    } else if s == 0xf {
        FrameSubtype::NullQualityOfServiceContentionFreeAcknowledgePoll
    } else {
        FrameSubtype::Reserved
    }
}

/// The subtype of a frame-control field, read against its type's
/// table; a reserved type has only reserved subtypes.
pub open spec fn spec_frame_subtype(f: u16) -> FrameSubtype {
    match spec_frame_type(f) {
        FrameType::Management => spec_management_subtype((f >> 4) & 0x0f),
        FrameType::Control => spec_control_subtype((f >> 4) & 0x0f),
        FrameType::Data => spec_data_subtype((f >> 4) & 0x0f),
        FrameType::Reserved => FrameSubtype::Reserved,
    }
}

impl FrameControl {
    /// Wrap a raw frame-control field.
    pub fn from_wire(value: u16) -> (r: FrameControl)
        ensures
            r.field == value,
    {
        FrameControl { field: value }
    }

    /// The frame type of bits two and three.
    pub fn get_type(&self) -> (r: FrameType)
        ensures
            r == spec_frame_type(self.field),
    {
        let t = (self.field >> 2) & 0x03;
        if t == 0 {
            FrameType::Management
        } else if t == 1 {
            FrameType::Control
        } else if t == 2 {
            FrameType::Data
        } else {
            FrameType::Reserved
        }
    }

    /// The subtype of bits four to seven, read against the type's
    /// table; unmapped patterns are reserved.
    pub fn get_subtype(&self) -> (r: FrameSubtype)
        ensures
            r == spec_frame_subtype(self.field),
    {
        let s = (self.field >> 4) & 0x0f;
        match self.get_type() {
            FrameType::Management => {
                if s == 0x0 {
                    FrameSubtype::AssociationRequest
                } else if s == 0x1 {
                    FrameSubtype::AssociationResponse
                } else if s == 0x2 {
                    FrameSubtype::ReassociationRequest
                } else if s == 0x3 {
                    FrameSubtype::ReassociationResponse
                } else if s == 0x4 {
                    FrameSubtype::ProbeRequest
                } else if s == 0x5 {
                    FrameSubtype::ProbeResponse
                } else if s == 0x6 {
                    FrameSubtype::TimingAdvertisment
                } else if s == 0x8 {
                    FrameSubtype::Beacon
                } else if s == 0x9 {
                    FrameSubtype::AnnouncementTrafficIndication
                } else if s == 0xa {
                    FrameSubtype::Disassociation
                } else if s == 0xb {
                    FrameSubtype::Authentication
                } else if s == 0xc {
                    FrameSubtype::Deauthentication
                } else if s == 0xd {
                    FrameSubtype::Action
                } else if s == 0xe {
                    FrameSubtype::ActionNoAcknowledge
                } else {
                    FrameSubtype::Reserved
                }
            },
            FrameType::Control => {
                if s == 0x7 {
                    FrameSubtype::ControlWrapper
                } else if s == 0x8 {
                    FrameSubtype::BlockAcknowledgeRequest
                } else if s == 0x9 {
                    FrameSubtype::BlockAcknowledge
                } else if s == 0xa {
                    FrameSubtype::PowerSavePoll
                } else if s == 0xb {
                    FrameSubtype::RequestToSend
                } else if s == 0xc {
                    FrameSubtype::ClearToSend
                } else if s == 0xd {
                    FrameSubtype::Acknowledge
                } else if s == 0xe {
                    FrameSubtype::ContentionFreeEnd
                } else if s == 0xf {
                    FrameSubtype::ContentionFreeEndAcknowledge
                } else {
                    FrameSubtype::Reserved
                }
            },
            FrameType::Data => {
                if s == 0x0 {
                    FrameSubtype::Data
                } else if s == 0x1 {
                    FrameSubtype::DataContentionFreeAcknowledge
                } else if s == 0x2 {
                    FrameSubtype::DataContentionFreePoll
                } else if s == 0x3 {
                    FrameSubtype::DataContentionFreeAcknowledgePoll
                } else if s == 0x4 {
                    FrameSubtype::Null
                } else if s == 0x5 {
                    FrameSubtype::NullContentionFreeAcknowledge
                } else if s == 0x6 {
                    FrameSubtype::NullContentionFreePoll
                } else if s == 0x7 {
                    FrameSubtype::NullContentionFreeAcknowledgePoll
                } else if s == 0x8 {
                    FrameSubtype::QualityOfService
                } else if s == 0x9 {
                    FrameSubtype::QualityOfServiceContentionFreeAcknowledge
                } else if s == 0xa {
                    FrameSubtype::QualityOfServiceContentionFreePoll
                } else if s == 0xb {
                    FrameSubtype::QualityOfServiceContentionFreeAcknowledgePoll
                } else if s == 0xc {
                    FrameSubtype::NullQualityOfService
                } else if s == 0xd {
                    FrameSubtype::NullQualityOfServiceContentionFreeAcknowledge
                } else if s == 0xe {
                    FrameSubtype::NullQualityOfServiceContentionFreePoll
                } else if s == 0xf {
                    FrameSubtype::NullQualityOfServiceContentionFreeAcknowledgePoll
                } else {
                    FrameSubtype::Reserved
                }
            },
            FrameType::Reserved => FrameSubtype::Reserved,
        }
    }

    /// The to-distribution-system flag.
    pub fn get_to_ds(&self) -> (r: bool)
        ensures
            r == (self.field & 0x0100 == 0x0100),
    {
        self.field & 0x0100 == 0x0100
    }

    /// The from-distribution-system flag.
    pub fn get_from_ds(&self) -> (r: bool)
        ensures
            r == (self.field & 0x0200 == 0x0200),
    {
        self.field & 0x0200 == 0x0200
    }

    /// The more-fragments flag.
    pub fn get_more_fragments(&self) -> (r: bool)
        ensures
            r == (self.field & 0x0400 == 0x0400),
    {
        self.field & 0x0400 == 0x0400
    }

    /// The retransmission flag.
    pub fn get_retry(&self) -> (r: bool)
        ensures
            r == (self.field & 0x0800 == 0x0800),
    {
        self.field & 0x0800 == 0x0800
    }

    /// The power-management flag.
    pub fn get_power_management(&self) -> (r: bool)
        ensures
            r == (self.field & 0x1000 == 0x1000),
    {
        self.field & 0x1000 == 0x1000
    }

    /// The more-data flag.
    pub fn get_more_data(&self) -> (r: bool)
        ensures
            r == (self.field & 0x2000 == 0x2000),
    {
        self.field & 0x2000 == 0x2000
    }

    /// The protected-frame flag.
    pub fn get_protected(&self) -> (r: bool)
        ensures
            r == (self.field & 0x4000 == 0x4000),
    {
        self.field & 0x4000 == 0x4000
    }

    /// The order flag, which also gates the HT-control word.
    pub fn get_order(&self) -> (r: bool)
        ensures
            r == (self.field & 0x8000 == 0x8000),
    {
        self.field & 0x8000 == 0x8000
    }
}

/// The duration field of a MAC header.
#[derive(Clone, Copy, Debug, PartialEq, Eq, Structural)]
pub struct FrameDuration {
    pub field: u16,
}

/// The sequence field of a MAC header.
#[derive(Clone, Copy, Debug, PartialEq, Eq, Structural)]
pub struct FrameSequence {
    pub field: u16,
}

/// A parsed management-frame header.
#[derive(Debug)]
pub struct ManagementFrame {
    pub control: FrameControl,
    pub duration: FrameDuration,
    pub address1: HardwareAddress,
    pub address2: HardwareAddress,
    pub address3: HardwareAddress,
    pub sequence: FrameSequence,
    pub high_throughput_control: Option<u32>,
}

/// The body octets a management frame needs beyond the four leading
/// octets: three addresses and the sequence field, plus the
/// HT-control word when the order flag is set.
pub open spec fn management_body_len(control: u16) -> int {
    if control & 0x8000 == 0x8000 {
        24
    } else {
        20
    }
}

impl ManagementFrame {
    /// Parse the body that follows the frame-control and duration
    /// fields.
    pub fn unpack(control: FrameControl, duration: FrameDuration, buffer: &[u8]) -> (r: Result<
        ManagementFrame,
        Error,
    >)
        ensures
            r is Ok <==> buffer@.len() > management_body_len(control.field),
            r is Err ==> r == Err::<ManagementFrame, Error>(Error::Truncated),
            r matches Ok(m) ==> m.control == control && m.duration == duration && m.address1@
                == buffer@.subrange(0, 6) && m.address2@ == buffer@.subrange(6, 12) && m.address3@
                == buffer@.subrange(12, 18) && m.sequence.field as int == le_unpack(
                buffer@.subrange(18, 20),
            ) && m.high_throughput_control == (if control.field & 0x8000 == 0x8000 {
                Some(le_unpack(buffer@.subrange(20, 24)) as u32)
            } else {
                None::<u32>
            }),
    {
        let order = control.get_order();
        let length: usize = if order {
            24
        } else {
            20
        };
        if buffer.len() <= length {
            return Err(Error::Truncated);
        }
        let a1 = HardwareAddress::unpack_unchecked(buffer);
        let a2 = HardwareAddress::unpack_unchecked(slice_subrange(buffer, 6, buffer.len()));
        let a3 = HardwareAddress::unpack_unchecked(slice_subrange(buffer, 12, buffer.len()));
        let sequence = FrameSequence { field: crate::codec::get_u16_at(buffer, 18) };
        let high_throughput_control = if order {
            Some(crate::codec::get_u32_at(buffer, 20))
        } else {
            None
        };
        proof {
            assert(buffer@.take(6) =~= buffer@.subrange(0, 6));
            assert(buffer@.skip(6).take(6) =~= buffer@.subrange(6, 12));
            assert(buffer@.skip(12).take(6) =~= buffer@.subrange(12, 18));
        }
        Ok(
            ManagementFrame {
                control,
                duration,
                address1: a1,
                address2: a2,
                address3: a3,
                sequence,
                high_throughput_control,
            },
        )
    }
}

/// A parsed control-frame header.
#[derive(Debug)]
pub struct ControlFrame {
    pub control: FrameControl,
    pub duration: FrameDuration,
    pub address1: HardwareAddress,
}

impl ControlFrame {
    /// Parse the body that follows the frame-control and duration
    /// fields: one address.
    pub fn unpack(control: FrameControl, duration: FrameDuration, buffer: &[u8]) -> (r: Result<
        ControlFrame,
        Error,
    >)
        ensures
            r is Ok <==> buffer@.len() > 6,
            r is Err ==> r == Err::<ControlFrame, Error>(Error::Truncated),
            r matches Ok(m) ==> m.control == control && m.duration == duration && m.address1@
                == buffer@.subrange(0, 6),
    {
        if buffer.len() <= 6 {
            return Err(Error::Truncated);
        }
        let a1 = HardwareAddress::unpack_unchecked(buffer);
        proof {
            assert(buffer@.take(6) =~= buffer@.subrange(0, 6));
        }
        Ok(ControlFrame { control, duration, address1: a1 })
    }
}

/// A parsed data-frame header.
#[derive(Debug)]
pub struct DataFrame {
    pub control: FrameControl,
    pub duration: FrameDuration,
    pub address1: HardwareAddress,
    pub address2: HardwareAddress,
    pub address3: HardwareAddress,
    pub sequence: FrameSequence,
    pub address4: HardwareAddress,
    pub quality_of_service_control: u16,
    pub high_throughput_control: u32,
}

impl DataFrame {
    /// Parse the body that follows the frame-control and duration
    /// fields: four addresses, the sequence, the QoS word and the
    /// HT-control word.
    pub fn unpack(control: FrameControl, duration: FrameDuration, buffer: &[u8]) -> (r: Result<
        DataFrame,
        Error,
    >)
        ensures
            r is Ok <==> buffer@.len() > 32,
            r is Err ==> r == Err::<DataFrame, Error>(Error::Truncated),
            r matches Ok(m) ==> m.control == control && m.duration == duration && m.address1@
                == buffer@.subrange(0, 6) && m.address2@ == buffer@.subrange(6, 12) && m.address3@
                == buffer@.subrange(12, 18) && m.sequence.field as int == le_unpack(
                buffer@.subrange(18, 20),
            ) && m.address4@ == buffer@.subrange(20, 26) && m.quality_of_service_control as int
                == le_unpack(buffer@.subrange(26, 28)) && m.high_throughput_control as int
                == le_unpack(buffer@.subrange(28, 32)),
    {
        if buffer.len() <= 32 {
            return Err(Error::Truncated);
        }
        let a1 = HardwareAddress::unpack_unchecked(buffer);
        let a2 = HardwareAddress::unpack_unchecked(slice_subrange(buffer, 6, buffer.len()));
        let a3 = HardwareAddress::unpack_unchecked(slice_subrange(buffer, 12, buffer.len()));
        let sequence = FrameSequence { field: crate::codec::get_u16_at(buffer, 18) };
        let a4 = HardwareAddress::unpack_unchecked(slice_subrange(buffer, 20, buffer.len()));
        let qos = crate::codec::get_u16_at(buffer, 26);
        let ht = crate::codec::get_u32_at(buffer, 28);
        proof {
            assert(buffer@.take(6) =~= buffer@.subrange(0, 6));
            assert(buffer@.skip(6).take(6) =~= buffer@.subrange(6, 12));
            assert(buffer@.skip(12).take(6) =~= buffer@.subrange(12, 18));
            assert(buffer@.skip(20).take(6) =~= buffer@.subrange(20, 26));
        }
        Ok(
            DataFrame {
                control,
                duration,
                address1: a1,
                address2: a2,
                address3: a3,
                sequence,
                address4: a4,
                quality_of_service_control: qos,
                high_throughput_control: ht,
            },
        )
    }
}

/// A parsed 802.11 frame header of any class.
#[derive(Debug)]
pub enum Frame {
    Management(ManagementFrame),
    Control(ControlFrame),
    Data(DataFrame),
}

impl Frame {
    /// Parse a frame header: the frame-control and duration fields,
    /// then the body its type calls for. Fails on a frame shorter
    /// than its type requires and on a reserved type.
    pub fn unpack(buffer: &[u8]) -> (r: Result<Frame, Error>)
        ensures
            buffer@.len() <= 4 ==> r == Err::<Frame, Error>(Error::Truncated),
            r is Err ==> r == Err::<Frame, Error>(Error::Truncated),
            buffer@.len() > 4 ==> (match spec_frame_type(le_unpack(buffer@.subrange(0, 2)) as u16) {
                FrameType::Management => (r is Ok <==> buffer@.skip(4).len()
                    > management_body_len(le_unpack(buffer@.subrange(0, 2)) as u16)) && (
                r matches Ok(f) ==> f matches Frame::Management(m) && m.control.field as int
                    == le_unpack(buffer@.subrange(0, 2)) && m.duration.field as int == le_unpack(
                    buffer@.subrange(2, 4),
                ) && m.address1@ == buffer@.subrange(4, 10)),
                FrameType::Control => (r is Ok <==> buffer@.len() > 10) && (r matches Ok(f)
                    ==> f matches Frame::Control(m) && m.control.field as int == le_unpack(
                    buffer@.subrange(0, 2),
                ) && m.duration.field as int == le_unpack(buffer@.subrange(2, 4)) && m.address1@
                    == buffer@.subrange(4, 10)),
                FrameType::Data => (r is Ok <==> buffer@.len() > 36) && (r matches Ok(f)
                    ==> f matches Frame::Data(m) && m.control.field as int == le_unpack(
                    buffer@.subrange(0, 2),
                ) && m.duration.field as int == le_unpack(buffer@.subrange(2, 4)) && m.address1@
                    == buffer@.subrange(4, 10)),
                FrameType::Reserved => r == Err::<Frame, Error>(Error::Truncated),
            }),
    {
        if buffer.len() <= 4 {
            return Err(Error::Truncated);
        }
        let control = FrameControl::from_wire(crate::codec::get_u16_at(buffer, 0));
        let duration = FrameDuration { field: crate::codec::get_u16_at(buffer, 2) };
        let body = slice_subrange(buffer, 4, buffer.len());
        proof {
            assert(body@ =~= buffer@.skip(4));
            if buffer@.len() >= 10 {
                assert(body@.subrange(0, 6) =~= buffer@.subrange(4, 10));
            }
        }
        match control.get_type() {
            FrameType::Management => {
                match ManagementFrame::unpack(control, duration, body) {
                    Ok(m) => Ok(Frame::Management(m)),
                    Err(e) => Err(e),
                }
            },
            FrameType::Control => {
                match ControlFrame::unpack(control, duration, body) {
                    Ok(m) => Ok(Frame::Control(m)),
                    Err(e) => Err(e),
                }
            },
            FrameType::Data => {
                match DataFrame::unpack(control, duration, body) {
                    Ok(m) => Ok(Frame::Data(m)),
                    Err(e) => Err(e),
                }
            },
            FrameType::Reserved => Err(Error::Truncated),
        }
    }
}

} // verus!
