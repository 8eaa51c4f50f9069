//! Netlink message classification and receive-batch framing.
//!
//! A receive batch holds one or more messages laid head to tail, each
//! introduced by a [`Header`] and padded to a four-byte stride. The
//! walk validates the sender and sequence of every header, translates
//! ERROR messages, and collects the rest.

use vstd::prelude::*;
use vstd::slice::{slice_subrange, slice_to_vec};
use crate::codec::{le_unpack, as_signed};
use crate::error::Error;
use crate::header::{Header, HEADER_SIZE, spec_header};
use crate::spec_align4;
use crate::variant::NativeRead;

verus! {

/// Message type of a no-operation message.
pub const NLMSG_NOOP: u16 = 1;

/// Message type of an error (or acknowledgment) message.
pub const NLMSG_ERROR: u16 = 2;

/// Message type that ends a multipart dump.
pub const NLMSG_DONE: u16 = 3;

/// Header flag: this message is a request.
pub const NLM_F_REQUEST: u16 = 1;

/// Header flag: part of a multipart response, more to follow.
pub const NLM_F_MULTIPART: u16 = 2;

/// Header flag: request an acknowledgment.
pub const NLM_F_ACKNOWLEDGE: u16 = 4;

/// Header flag: dump every matching object.
pub const NLM_F_DUMP: u16 = 0x300;

/// How a request expects to be answered.
pub enum MessageMode {
    Plain,
    Acknowledge,
    Dump,
}

impl MessageMode {
    /// The header flags a request in this mode carries.
    pub fn flags(&self) -> (r: u16)
        ensures
            r == self.spec_flags(),
    {
        match *self {
            MessageMode::Plain => NLM_F_REQUEST,
            MessageMode::Acknowledge => NLM_F_REQUEST | NLM_F_ACKNOWLEDGE,
            MessageMode::Dump => NLM_F_REQUEST | NLM_F_DUMP,
        }
    }

    /// The header flags a request in this mode carries.
    pub open spec fn spec_flags(&self) -> u16 {
        match *self {
            MessageMode::Plain => NLM_F_REQUEST,
            MessageMode::Acknowledge => NLM_F_REQUEST | NLM_F_ACKNOWLEDGE,
            MessageMode::Dump => NLM_F_REQUEST | NLM_F_DUMP,
        }
    }
}

/// A message that carries protocol payload.
#[derive(Debug)]
pub struct DataMessage {
    pub header: Header,
    pub data: Vec<u8>,
}

impl DataMessage {
    /// Read the payload that follows an already-parsed `header` at
    /// `*pos`, advancing `*pos` past it.
    pub fn parse(buffer: &[u8], pos: &mut usize, header: Header) -> (r: Result<
        DataMessage,
        Error,
    >)
        requires
            header.valid(),
        ensures
            r is Ok <==> *old(pos) + header.length - HEADER_SIZE <= buffer@.len(),
            r is Err ==> r == Err::<DataMessage, Error>(Error::Truncated) && *final(pos) == *old(
                pos,
            ),
            r matches Ok(m) ==> *final(pos) == *old(pos) + header.length - HEADER_SIZE && m.header
                == header && m.data@ == buffer@.subrange(
                *old(pos) as int,
                *old(pos) + header.length - HEADER_SIZE,
            ),
    {
        let data_length = header.data_length();
        if *pos <= buffer.len() && buffer.len() - *pos >= data_length {
            let data = slice_to_vec(slice_subrange(buffer, *pos, *pos + data_length));
            *pos = *pos + data_length;
            Ok(DataMessage { header, data })
        } else {
            Err(Error::Truncated)
        }
    }
}

/// A kernel report on a request: a code and the offending header.
#[derive(Debug)]
pub struct ErrorMessage {
    pub header: Header,
    pub code: i32,
    pub original_header: Header,
}

impl ErrorMessage {
    /// Read the error code and the echoed request header that follow
    /// an already-parsed `header` at `*pos`, advancing `*pos`.
    pub fn parse(buffer: &[u8], pos: &mut usize, header: Header) -> (r: Result<
        ErrorMessage,
        Error,
    >)
        ensures
            r is Ok <==> *old(pos) + 4 + HEADER_SIZE <= buffer@.len(),
            r is Err ==> r == Err::<ErrorMessage, Error>(Error::Truncated),
            r matches Ok(m) ==> *final(pos) == *old(pos) + 4 + HEADER_SIZE && m.header == header
                && m.code as int == as_signed(
                le_unpack(buffer@.subrange(*old(pos) as int, *old(pos) + 4)),
                4,
            ) && m.original_header == spec_header(buffer@.skip(*old(pos) + 4)),
    {
        let code = match i32::read(buffer, pos) {
            Ok(v) => v,
            Err(e) => {
                return Err(e);
            },
        };
        let original_header = match Header::parse(buffer, pos) {
            Ok(h) => h,
            Err(e) => {
                return Err(e);
            },
        };
        proof {
            assert(buffer@.skip(*old(pos) as int).take(4) =~= buffer@.subrange(
                *old(pos) as int,
                *old(pos) + 4,
            ));
        }
        Ok(ErrorMessage { header, code, original_header })
    }
}

/// One received message after classification.
#[derive(Debug)]
pub enum Message {
    Data(DataMessage),
    Acknowledge,
    Done,
}

/// The mathematical shape of a received message.
pub enum MessageModel {
    Data(Header, Seq<u8>),
    Acknowledge,
    Done,
}

/// The model of one parsed message.
pub open spec fn message_model(m: Message) -> MessageModel {
    match m {
        Message::Data(d) => MessageModel::Data(d.header, d.data@),
        Message::Acknowledge => MessageModel::Acknowledge,
        Message::Done => MessageModel::Done,
    }
}

/// The models of a parsed message list.
pub open spec fn message_models(s: Seq<Message>) -> Seq<MessageModel> {
    s.map(|i: int, m: Message| message_model(m))
}

/// The errno a netlink ERROR message with nonzero `code` translates
/// to: the negated code, left alone at the one value that cannot be
/// negated.
pub open spec fn spec_errno(code: int) -> int {
    if code == -0x8000_0000 {
        code
    } else {
        -code
    }
}

fn negate_code(code: i32) -> (r: i32)
    ensures
        r as int == spec_errno(code as int),
{
    if code == i32::MIN {
        code
    } else {
        -code
    }
}

/// The outcome of walking one receive batch: the collected messages
/// and whether more datagrams should be expected, or the error that
/// ends the conversation.
///
/// Every header is held to the socket's pid and to the outstanding
/// sequence number (senders with pid zero are exempt from both), and a
/// header whose declared length cannot cover the header itself is
/// malformed. NOOP messages are skipped; an ERROR message with a
/// nonzero code fails the walk with the translated errno and with a
/// zero code stands for an acknowledgment; DONE ends a dump; anything
/// else carries data. More datagrams are promised when a data message
/// carries the multipart flag or when an acknowledgment is still
/// outstanding.
pub open spec fn spec_parse_messages(b: Seq<u8>, pid: u32, seqno: u32, ack: bool) -> Result<
    (Seq<MessageModel>, bool),
    Error,
>
    decreases b.len(),
{
    if b.len() == 0 {
        Ok((Seq::empty(), false))
    } else if b.len() < 16 {
        Err(Error::Truncated)
    } else {
        let h = spec_header(b);
        if h.length < 16 {
            Err(Error::Truncated)
        } else if !(h.pid == 0 || h.pid == pid) {
            Err(Error::InvalidPid)
        } else if !(h.pid == 0 || h.sequence == seqno) {
            Err(Error::InvalidSequence)
        } else {
            let stride = spec_align4(h.length as int);
            let rest = if stride < b.len() {
                b.skip(stride)
            } else {
                Seq::<u8>::empty()
            };
            if h.identifier == NLMSG_NOOP {
                spec_parse_messages(rest, pid, seqno, ack)
            } else if h.identifier == NLMSG_ERROR {
                if b.len() < 36 {
                    Err(Error::Truncated)
                } else {
                    let code = as_signed(le_unpack(b.subrange(16, 20)), 4);
                    if code != 0 {
                        Err(Error::Kernel(spec_errno(code) as i32))
                    } else {
                        match spec_parse_messages(rest, pid, seqno, ack) {
                            Ok((msgs, more)) => Ok((seq![MessageModel::Acknowledge] + msgs, more)),
                            Err(e) => Err(e),
                        }
                    }
                }
            } else if h.identifier == NLMSG_DONE {
                match spec_parse_messages(rest, pid, seqno, ack) {
                    Ok((msgs, more)) => Ok((seq![MessageModel::Done] + msgs, more)),
                    Err(e) => Err(e),
                }
            } else {
                if h.length > b.len() {
                    Err(Error::Truncated)
                } else {
                    let data = b.subrange(16, h.length as int);
                    let multi = h.flags & NLM_F_MULTIPART != 0 || ack;
                    match spec_parse_messages(rest, pid, seqno, ack) {
                        Ok((msgs, more)) => Ok(
                            (seq![MessageModel::Data(h, data)] + msgs, more || multi),
                        ),
                        Err(e) => Err(e),
                    }
                }
            }
        }
    }
}

/// Walk one receive batch and classify every message in it.
///
/// `pid` is the socket's own port, `sequence_expected` the sequence of
/// the outstanding request, and `acknowledge_expected` whether that
/// request asked for an acknowledgment. The boolean result reports
/// whether more datagrams should be drained.
pub fn parse_data(
    buffer: &[u8],
    pid: u32,
    sequence_expected: u32,
    acknowledge_expected: bool,
) -> (r: Result<(Vec<Message>, bool), Error>)
    ensures
        (match spec_parse_messages(buffer@, pid, sequence_expected, acknowledge_expected) {
            Ok((models, more)) => r matches Ok(p) && message_models(p.0@) == models && p.1 == more,
            Err(e) => r == Err::<(Vec<Message>, bool), Error>(e),
        }),
{
    let ghost full = buffer@;
    let mut msgs: Vec<Message> = Vec::new();
    let mut more: bool = false;
    let mut pos: usize = 0;
    proof {
        assert(buffer@.skip(0) =~= buffer@);
        assert(message_models(msgs@) =~= Seq::<MessageModel>::empty());
    }
    while pos < buffer.len()
        invariant
            pos <= buffer@.len(),
            (match spec_parse_messages(
                buffer@.skip(pos as int),
                pid,
                sequence_expected,
                acknowledge_expected,
            ) {
                Ok((m2, b2)) => spec_parse_messages(
                    buffer@,
                    pid,
                    sequence_expected,
                    acknowledge_expected,
                ) == Ok::<_, Error>((message_models(msgs@) + m2, more || b2)),
                Err(e) => spec_parse_messages(
                    buffer@,
                    pid,
                    sequence_expected,
                    acknowledge_expected,
                ) == Err::<(Seq<MessageModel>, bool), Error>(e),
            }),
        decreases buffer@.len() - pos,
    {
        let ghost b = buffer@.skip(pos as int);
        let start = pos;
        let mut p = pos;
        let header = match Header::parse(buffer, &mut p) {
            Ok(h) => h,
            Err(e) => {
                return Err(e);
            },
        };
        if header.length < 16 {
            return Err(Error::Truncated);
        }
        if !header.check_pid(pid) {
            return Err(Error::InvalidPid);
        }
        if !header.check_sequence(sequence_expected) {
            return Err(Error::InvalidSequence);
        }
        let stride: u64 = ((header.length as u64) + 3) / 4 * 4;
        proof {
            crate::align::lemma_align4(header.length as int);
            assert(stride as int == spec_align4(header.length as int));
            if stride < b.len() {
                assert(b.skip(stride as int) =~= buffer@.skip(start + stride));
            }
        }
        let ghost prev = msgs@;
        let ghost more_prev = more;
        let ghost mut delta = Seq::<MessageModel>::empty();
        if header.identifier == NLMSG_NOOP {
            // skipped, nothing collected
        } else if header.identifier == NLMSG_ERROR {
            let emsg = match ErrorMessage::parse(buffer, &mut p, header) {
                Ok(m) => m,
                Err(e) => {
                    return Err(e);
                },
            };
            proof {
                assert(buffer@.subrange(start + 16, start + 20) =~= b.subrange(16, 20));
            }
            if emsg.code != 0 {
                return Err(Error::Kernel(negate_code(emsg.code)));
            }
            msgs.push(Message::Acknowledge);
            proof {
                delta = seq![MessageModel::Acknowledge];
                assert(message_models(prev.push(Message::Acknowledge)) =~= message_models(prev)
                    + delta);
            }
        } else if header.identifier == NLMSG_DONE {
            msgs.push(Message::Done);
            proof {
                delta = seq![MessageModel::Done];
                assert(message_models(prev.push(Message::Done)) =~= message_models(prev) + delta);
            }
        } else {
            if buffer.len() - pos < header.length() {
                return Err(Error::Truncated);
            }
            let dmsg = match DataMessage::parse(buffer, &mut p, header) {
                Ok(m) => m,
                Err(e) => {
                    return Err(e);
                },
            };
            proof {
                assert(dmsg.data@ =~= b.subrange(16, header.length as int));
            }
            if header.flags & NLM_F_MULTIPART != 0 || acknowledge_expected {
                more = true;
            }
            let ghost pushed = Message::Data(dmsg);
            msgs.push(Message::Data(dmsg));
            proof {
                delta = seq![message_model(pushed)];
                assert(message_models(prev.push(pushed)) =~= message_models(prev) + delta);
            }
        }
        if stride < (buffer.len() - start) as u64 {
            pos = start + (stride as usize);
        } else {
            pos = buffer.len();
            proof {
                assert(buffer@.skip(buffer@.len() as int) =~= Seq::<u8>::empty());
            }
        }
        proof {
            let rest_res = spec_parse_messages(
                buffer@.skip(pos as int),
                pid,
                sequence_expected,
                acknowledge_expected,
            );
            match rest_res {
                Ok(pair) => {
                    assert((message_models(prev) + delta) + pair.0 =~= message_models(prev) + (delta
                        + pair.0));
                },
                Err(_) => {},
            }
        }
    }
    proof {
        assert(buffer@.skip(buffer@.len() as int) =~= Seq::<u8>::empty());
    }
    Ok((msgs, more))
}

} // verus!
