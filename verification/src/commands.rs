//! The nl80211 commands the library issues and recognizes.
//!
//! The numeric values are fixed by the kernel's nl80211 ABI; the
//! table is hand-maintained and covers the commands this library
//! uses. Unknown wire values convert to `None`.

use vstd::prelude::*;
use crate::socket::ConvertFrom;

verus! {

/// An nl80211 command, with its kernel wire value.
#[derive(Clone, Copy, Debug, PartialEq, Eq, Structural)]
pub enum Command {
    Unspecified,
    GetWiphy,
    GetInterface,
    RequestSetRegulatory,
    GetRegulatory,
    GetScan,
    TriggerScan,
    NewScanResults,
    ScanAborted,
    RegulatoryChangeEvent,
    Connect,
    Disconnect,
    GetSurvey,
    StartScheduledScan,
    StopScheduledScan,
    AbortScan,
}

impl Command {
    /// The command's wire value.
    pub open spec fn spec_wire(&self) -> u8 {
        match *self {
            Command::Unspecified => 0,
            Command::GetWiphy => 1,
            Command::GetInterface => 5,
            Command::RequestSetRegulatory => 27,
            Command::GetRegulatory => 31,
            Command::GetScan => 32,
            Command::TriggerScan => 33,
            Command::NewScanResults => 34,
            Command::ScanAborted => 35,
            Command::RegulatoryChangeEvent => 36,
            Command::Connect => 46,
            Command::Disconnect => 48,
            Command::GetSurvey => 50,
            Command::StartScheduledScan => 75,
            Command::StopScheduledScan => 76,
            Command::AbortScan => 114,
        }
    }

    /// The command's wire value.
    pub fn to_wire(&self) -> (r: u8)
        ensures
            r == self.spec_wire(),
    {
        match *self {
            Command::Unspecified => 0,
            Command::GetWiphy => 1,
            Command::GetInterface => 5,
            Command::RequestSetRegulatory => 27,
            Command::GetRegulatory => 31,
            Command::GetScan => 32,
            Command::TriggerScan => 33,
            Command::NewScanResults => 34,
            Command::ScanAborted => 35,
            Command::RegulatoryChangeEvent => 36,
            Command::Connect => 46,
            Command::Disconnect => 48,
            Command::GetSurvey => 50,
            Command::StartScheduledScan => 75,
            Command::StopScheduledScan => 76,
            Command::AbortScan => 114,
        }
    }
}

impl ConvertFrom<u8> for Command {
    open spec fn spec_convert_from(value: u8) -> Option<Command> {
        match value {
            0u8 => Some(Command::Unspecified),
            1u8 => Some(Command::GetWiphy),
            5u8 => Some(Command::GetInterface),
            27u8 => Some(Command::RequestSetRegulatory),
            31u8 => Some(Command::GetRegulatory),
            32u8 => Some(Command::GetScan),
            33u8 => Some(Command::TriggerScan),
            34u8 => Some(Command::NewScanResults),
            35u8 => Some(Command::ScanAborted),
            36u8 => Some(Command::RegulatoryChangeEvent),
            46u8 => Some(Command::Connect),
            48u8 => Some(Command::Disconnect),
            50u8 => Some(Command::GetSurvey),
            75u8 => Some(Command::StartScheduledScan),
            76u8 => Some(Command::StopScheduledScan),
            114u8 => Some(Command::AbortScan),
            _ => None,
        }
    }

    fn convert_from(value: u8) -> (r: Option<Command>) {
        match value {
            0u8 => Some(Command::Unspecified),
            1u8 => Some(Command::GetWiphy),
            5u8 => Some(Command::GetInterface),
            27u8 => Some(Command::RequestSetRegulatory),
            31u8 => Some(Command::GetRegulatory),
            32u8 => Some(Command::GetScan),
            33u8 => Some(Command::TriggerScan),
            34u8 => Some(Command::NewScanResults),
            35u8 => Some(Command::ScanAborted),
            36u8 => Some(Command::RegulatoryChangeEvent),
            46u8 => Some(Command::Connect),
            48u8 => Some(Command::Disconnect),
            50u8 => Some(Command::GetSurvey),
            75u8 => Some(Command::StartScheduledScan),
            76u8 => Some(Command::StopScheduledScan),
            114u8 => Some(Command::AbortScan),
            _ => None,
        }
    }
}

} // verus!
