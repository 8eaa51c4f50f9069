//! The netlink message header.

use vstd::prelude::*;
use crate::codec::le_unpack;
use crate::error::Error;
use crate::spec_align4;
use crate::variant::NativeRead;

verus! {

/// Octets of a netlink message header on the wire.
pub const HEADER_SIZE: usize = 16;

/// The fixed netlink message header: total length, message type,
/// flags, sequence number, and the port (pid) of the sender.
#[derive(Clone, Copy, Debug, PartialEq, Eq, Structural)]
pub struct Header {
    pub length: u32,
    pub identifier: u16,
    pub flags: u16,
    pub sequence: u32,
    pub pid: u32,
}

/// The header encoded at the front of `b`.
pub open spec fn spec_header(b: Seq<u8>) -> Header {
    Header {
        length: le_unpack(b.subrange(0, 4)) as u32,
        identifier: le_unpack(b.subrange(4, 6)) as u16,
        flags: le_unpack(b.subrange(6, 8)) as u16,
        sequence: le_unpack(b.subrange(8, 12)) as u32,
        pid: le_unpack(b.subrange(12, 16)) as u32,
    }
}

impl Header {
    /// A header must at least cover itself.
    pub open spec fn valid(&self) -> bool {
        self.length >= HEADER_SIZE
    }

    /// Read the five fixed fields at `*pos`, advancing `*pos`.
    pub fn parse(buffer: &[u8], pos: &mut usize) -> (r: Result<Header, Error>)
        ensures
            r is Ok <==> *old(pos) + HEADER_SIZE <= buffer@.len(),
            r is Err ==> r == Err::<Header, Error>(Error::Truncated) && *final(pos) == *old(pos),
            r matches Ok(h) ==> *final(pos) == *old(pos) + HEADER_SIZE && h == spec_header(
                buffer@.skip(*old(pos) as int),
            ),
    {
        let start = *pos;
        if !(start <= buffer.len() && buffer.len() - start >= HEADER_SIZE) {
            return Err(Error::Truncated);
        }
        let length = match u32::read(buffer, pos) {
            Ok(v) => v,
            Err(e) => {
                return Err(e);
            },
        };
        let identifier = match u16::read(buffer, pos) {
            Ok(v) => v,
            Err(e) => {
                return Err(e);
            },
        };
        let flags = match u16::read(buffer, pos) {
            Ok(v) => v,
            Err(e) => {
                return Err(e);
            },
        };
        let sequence = match u32::read(buffer, pos) {
            Ok(v) => v,
            Err(e) => {
                return Err(e);
            },
        };
        let pid = match u32::read(buffer, pos) {
            Ok(v) => v,
            Err(e) => {
                return Err(e);
            },
        };
        proof {
            let b = buffer@.skip(start as int);
            assert(b.take(4) =~= b.subrange(0, 4));
            assert(buffer@.skip(start + 4).take(2) =~= b.subrange(4, 6));
            assert(buffer@.skip(start + 6).take(2) =~= b.subrange(6, 8));
            assert(buffer@.skip(start + 8).take(4) =~= b.subrange(8, 12));
            assert(buffer@.skip(start + 12).take(4) =~= b.subrange(12, 16));
        }
        Ok(Header { length, identifier, flags, sequence, pid })
    }

    /// The total message length declared by the header.
    pub fn length(&self) -> (r: usize)
        ensures
            r == self.length,
    {
        self.length as usize
    }

    /// The payload length: total length minus the header itself.
    pub fn data_length(&self) -> (r: usize)
        requires
            self.valid(),
        ensures
            r == self.length - HEADER_SIZE,
    {
        self.length() - HEADER_SIZE
    }

    /// Padding octets after the message up to the next alignment boundary.
    pub fn padding(&self) -> (r: usize)
        requires
            self.length + 3 <= usize::MAX,
        ensures
            r == spec_align4(self.length as int) - self.length,
    {
        crate::align::netlink_padding(self.length())
    }

    /// The total length rounded up to the alignment boundary: the
    /// stride from this header to the next one in a receive batch.
    pub fn aligned_length(&self) -> (r: usize)
        requires
            self.length + 3 <= usize::MAX,
        ensures
            r == spec_align4(self.length as int),
    {
        crate::align::netlink_align(self.length())
    }

    /// The payload length rounded up to the alignment boundary.
    pub fn aligned_data_length(&self) -> (r: usize)
        requires
            self.valid(),
        ensures
            r == spec_align4(self.length - HEADER_SIZE),
    {
        crate::align::netlink_align(self.data_length())
    }

    /// Whether the header's pid is acceptable for a socket bound to
    /// `pid`: zero marks a kernel or multicast origin and is exempt.
    pub fn check_pid(&self, pid: u32) -> (r: bool)
        ensures
            r == (self.pid == 0 || self.pid == pid),
    {
        self.pid == 0 || self.pid == pid
    }

    /// Whether the header's sequence number is acceptable when
    /// `sequence` is the outstanding request; exempt for pid zero.
    pub fn check_sequence(&self, sequence: u32) -> (r: bool)
        ensures
            r == (self.pid == 0 || self.sequence == sequence),
    {
        self.pid == 0 || self.sequence == sequence
    }
}

} // verus!
