//! The transport bookkeeping of a netlink socket.
//!
//! The raw socket itself (descriptor, syscalls, readiness) lives with
//! the caller; this module holds everything about the conversation
//! that is plain data: the protocol numbers, the local address, the
//! sequence counters, the framing of outgoing requests, and the
//! parsing of receive batches.

use vstd::prelude::*;
use crate::codec::le_pack;
use crate::codec::{put_u16, put_u32};
use crate::error::Error;
use crate::message::{Message, NLM_F_ACKNOWLEDGE, spec_parse_messages, message_models,
    parse_data};

verus! {

/// Convert a wire value into a symbol, `None` when the value is not
/// in the table.
pub trait ConvertFrom<T>: Sized {
    /// The table: which symbol a wire value stands for.
    spec fn spec_convert_from(value: T) -> Option<Self>;

    /// Look the wire value up.
    fn convert_from(value: T) -> (r: Option<Self>)
        ensures
            r == Self::spec_convert_from(value),
    ;
}

/// The netlink protocol families, with their fixed kernel numbers.
#[derive(Clone, Copy, Debug, PartialEq, Eq, Structural)]
pub enum Protocol {
    Route,
    Unused,
    Usersock,
    Firewall,
    SockDiag,
    Nflog,
    Xfrm,
    SELinux,
    ISCSI,
    Audit,
    FibLookup,
    Connector,
    Netfilter,
    IP6Fw,
    DNRtMsg,
    KObjectUevent,
    Generic,
    SCSITransport,
    ECryptFs,
    RDMA,
    Crypto,
    SMC,
}

impl Protocol {
    /// The kernel's number for the protocol family.
    pub open spec fn spec_wire(&self) -> i32 {
        match *self {
            Protocol::Route => 0,
            Protocol::Unused => 1,
            Protocol::Usersock => 2,
            Protocol::Firewall => 3,
            Protocol::SockDiag => 4,
            Protocol::Nflog => 5,
            Protocol::Xfrm => 6,
            Protocol::SELinux => 7,
            Protocol::ISCSI => 8,
            Protocol::Audit => 9,
            Protocol::FibLookup => 10,
            Protocol::Connector => 11,
            Protocol::Netfilter => 12,
            Protocol::IP6Fw => 13,
            Protocol::DNRtMsg => 14,
            Protocol::KObjectUevent => 15,
            Protocol::Generic => 16,
            Protocol::SCSITransport => 17,
            Protocol::ECryptFs => 18,
            Protocol::RDMA => 19,
            Protocol::Crypto => 20,
            Protocol::SMC => 21,
        }
    }

    /// The kernel's number for the protocol family.
    pub fn to_wire(&self) -> (r: i32)
        ensures
            r == self.spec_wire(),
    {
        match *self {
            Protocol::Route => 0,
            Protocol::Unused => 1,
            Protocol::Usersock => 2,
            Protocol::Firewall => 3,
            Protocol::SockDiag => 4,
            Protocol::Nflog => 5,
            Protocol::Xfrm => 6,
            Protocol::SELinux => 7,
            Protocol::ISCSI => 8,
            Protocol::Audit => 9,
            Protocol::FibLookup => 10,
            Protocol::Connector => 11,
            Protocol::Netfilter => 12,
            Protocol::IP6Fw => 13,
            Protocol::DNRtMsg => 14,
            Protocol::KObjectUevent => 15,
            Protocol::Generic => 16,
            Protocol::SCSITransport => 17,
            Protocol::ECryptFs => 18,
            Protocol::RDMA => 19,
            Protocol::Crypto => 20,
            Protocol::SMC => 21,
        }
    }
}

/// A netlink socket address: family `AF_NETLINK`, the bound port
/// (pid) and the multicast group mask.
#[derive(Clone, Copy, Debug, PartialEq, Eq, Structural)]
pub struct Address {
    pub family: u16,
    pub _pad: u16,
    pub pid: u32,
    pub groups: u32,
}

/// A payload that can be framed into a netlink request.
pub trait Sendable {
    /// Whether the payload can be serialized at all.
    spec fn write_ok(&self) -> bool;

    /// The octets the payload serializes to.
    spec fn payload_bytes(&self) -> Seq<u8>;

    /// The message type the request carries in its header.
    spec fn spec_message_type(&self) -> u16;

    /// The header flags the request asks for.
    spec fn spec_query_flags(&self) -> u16;

    /// Append the serialized payload to `out`.
    fn write(&self, out: &mut Vec<u8>) -> (r: Result<(), Error>)
        ensures
            r is Ok <==> self.write_ok(),
            r is Ok ==> final(out)@ =~= old(out)@ + self.payload_bytes(),
            r is Err ==> final(out)@ == old(out)@,
    ;

    /// The message type the request carries in its header.
    fn message_type(&self) -> (r: u16)
        ensures
            r == self.spec_message_type(),
    ;

    /// The header flags the request asks for.
    fn query_flags(&self) -> (r: u16)
        ensures
            r == self.spec_query_flags(),
    ;
}

/// A framed request: header and payload laid out for one `send` call.
pub open spec fn spec_frame(
    payload: Seq<u8>,
    message_type: u16,
    flags: u16,
    sequence: u32,
    pid: u32,
) -> Seq<u8> {
    le_pack(payload.len() as int + 16, 4) + le_pack(message_type as int, 2) + le_pack(
        flags as int,
        2,
    ) + le_pack(sequence as int, 4) + le_pack(pid as int, 4) + payload
}

/// The conversation state of one netlink socket: the bound pid, the
/// next outgoing sequence number, the sequence a response is expected
/// for, and whether the last request asked for an acknowledgment.
pub struct SocketState {
    pub pid: u32,
    pub sequence_next: u32,
    pub sequence_expected: u32,
    pub acknowledge_expected: bool,
}

impl SocketState {
    /// Fresh state for a socket bound to `pid`: sequence numbering
    /// starts at one and nothing is outstanding.
    pub fn new(pid: u32) -> (r: SocketState)
        ensures
            r.pid == pid,
            r.sequence_next == 1,
            r.sequence_expected == 0,
            !r.acknowledge_expected,
    {
        SocketState { pid, sequence_next: 1, sequence_expected: 0, acknowledge_expected: false }
    }

    /// Frame `payload` as the next outgoing request and record what
    /// the response must match: the assigned sequence number is fixed
    /// as outstanding, the counter advances (wrapping), and the
    /// acknowledge-expected flag follows the request's flags.
    pub fn build_request<S: Sendable>(&mut self, payload: &S) -> (r: Result<Vec<u8>, Error>)
        ensures
            r is Ok <==> payload.write_ok() && payload.payload_bytes().len() + 16 <= u32::MAX,
            r is Err ==> *final(self) == *old(self),
            r matches Ok(bytes) ==> bytes@ == spec_frame(
                payload.payload_bytes(),
                payload.spec_message_type(),
                payload.spec_query_flags(),
                old(self).sequence_next,
                old(self).pid,
            ) && final(self).pid == old(self).pid && final(self).sequence_expected == old(
                self,
            ).sequence_next && final(self).sequence_next == (old(self).sequence_next + 1)
                % 0x1_0000_0000 && final(self).acknowledge_expected == (
            payload.spec_query_flags() & NLM_F_ACKNOWLEDGE != 0),
    {
        let mut body: Vec<u8> = Vec::new();
        match payload.write(&mut body) {
            Ok(()) => (),
            Err(e) => {
                return Err(e);
            },
        }
        if body.len() > (u32::MAX - 16) as usize {
            return Err(Error::Truncated);
        }
        let total: u32 = body.len() as u32 + 16;
        let flags = payload.query_flags();
        let mut out: Vec<u8> = Vec::new();
        put_u32(&mut out, total);
        put_u16(&mut out, payload.message_type());
        put_u16(&mut out, flags);
        put_u32(&mut out, self.sequence_next);
        put_u32(&mut out, self.pid);
        out.append(&mut body);
        proof {
            assert(out@ =~= spec_frame(
                payload.payload_bytes(),
                payload.spec_message_type(),
                payload.spec_query_flags(),
                self.sequence_next,
                self.pid,
            ));
        }
        self.acknowledge_expected = flags & NLM_F_ACKNOWLEDGE != 0;
        self.sequence_expected = self.sequence_next;
        self.sequence_next = if self.sequence_next == u32::MAX {
            0
        } else {
            self.sequence_next + 1
        };
        Ok(out)
    }

    /// Walk one receive batch against this socket's pid and
    /// outstanding sequence.
    pub fn parse_data(&self, buffer: &[u8]) -> (r: Result<(Vec<Message>, bool), Error>)
        ensures
            (match spec_parse_messages(
                buffer@,
                self.pid,
                self.sequence_expected,
                self.acknowledge_expected,
            ) {
                Ok((models, more)) => r matches Ok(p) && message_models(p.0@) == models && p.1
                    == more,
                Err(e) => r == Err::<(Vec<Message>, bool), Error>(e),
            }),
    {
        parse_data(buffer, self.pid, self.sequence_expected, self.acknowledge_expected)
    }
}

} // verus!
