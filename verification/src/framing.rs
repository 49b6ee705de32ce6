//! How much of a frame has arrived. The frames carry their own lengths, so
//! a reader that asks after each read how many bytes are still missing
//! takes a frame off a stream without ever reading beyond its end.

use vstd::prelude::*;
use crate::auth::CredentialsModel;
use crate::codes::{
    Command,
    Socks5Error,
    ATYP_DOMAIN_NAME,
    ATYP_IPV4,
    ATYP_IPV6,
    RESERVED,
    SOCKS5_VERSION,
    USER_PASSWORD_VERSION,
};
use crate::greeting::GreetingModel;
use crate::request::RequestModel;

verus! {

/// The frames that a server reads from its client.
#[derive(Debug, Clone, Copy, PartialEq, Eq, Structural)]
pub enum FrameKind {
    Greeting,
    Credentials,
    Request,
}

/// The fault that decoding a frame of `kind` from `buffer` ends in, if any.
pub open spec fn decode_fault(kind: FrameKind, buffer: Seq<u8>) -> Option<Socks5Error> {
    match kind {
        FrameKind::Greeting => match GreetingModel::decode_spec(buffer) {
            Err(error) => Some(error),
            Ok(_) => None,
        },
        FrameKind::Credentials => match CredentialsModel::decode_spec(buffer) {
            Err(error) => Some(error),
            Ok(_) => None,
        },
        FrameKind::Request => match RequestModel::decode_spec(buffer) {
            Err(error) => Some(error),
            Ok(_) => None,
        },
    }
}

/// The length of the frame of `kind` at the front of `buffer`, if that
/// frame decodes.
pub open spec fn frame_len(kind: FrameKind, buffer: Seq<u8>) -> Option<nat> {
    match kind {
        FrameKind::Greeting => match GreetingModel::decode_spec(buffer) {
            Err(_) => None,
            Ok((_, consumed)) => Some(consumed),
        },
        FrameKind::Credentials => match CredentialsModel::decode_spec(buffer) {
            Err(_) => None,
            Ok((_, consumed)) => Some(consumed),
        },
        FrameKind::Request => match RequestModel::decode_spec(buffer) {
            Err(_) => None,
            Ok((_, consumed)) => Some(consumed),
        },
    }
}

/// The length that the bytes in `buffer` show a frame of `kind` to have at
/// least: the fixed header first, then, as each length prefix arrives, what
/// it announces.
pub open spec fn known_len(kind: FrameKind, buffer: Seq<u8>) -> nat {
    match kind {
        FrameKind::Greeting => if buffer.len() < 2 {
            2
        } else {
            (2 + buffer[1]) as nat
        },
        FrameKind::Credentials => if buffer.len() < 2 {
            2
        } else if buffer.len() < 3 + buffer[1] {
            (3 + buffer[1]) as nat
        } else {
            (3 + buffer[1] + buffer[2 + buffer[1]]) as nat
        },
        FrameKind::Request => if buffer.len() < 4 {
            4
        } else if buffer[3] == ATYP_IPV4 {
            10
        } else if buffer[3] == ATYP_IPV6 {
            22
        } else if buffer[3] == ATYP_DOMAIN_NAME {
            if buffer.len() < 5 {
                5
            } else {
                (7 + buffer[4]) as nat
            }
        } else {
            4
        },
    }
}

/// The number of bytes to read next: zero when the frame of `kind` at the
/// front of `buffer` is complete or already at fault, else what is missing
/// of the length known so far.
pub open spec fn shortfall(kind: FrameKind, buffer: Seq<u8>) -> nat {
    if decode_fault(kind, buffer) == Some(Socks5Error::TruncatedFrame) {
        (known_len(kind, buffer) - buffer.len()) as nat
    } else {
        0
    }
}

/// Says how many bytes to read next for a frame of `kind` of which `buffer`
/// has arrived. Zero means that the frame can be decoded or refused as it
/// stands.
pub fn missing(kind: FrameKind, buffer: &[u8]) -> (count: usize)
    ensures
        count == shortfall(kind, buffer@),
        count > 0 <==> decode_fault(kind, buffer@) == Some(Socks5Error::TruncatedFrame),
{
    let have: usize = buffer.len();
    match kind {
        FrameKind::Greeting => {
            if have < 1 {
                2
            } else if buffer[0] != SOCKS5_VERSION {
                0
            } else if have < 2 {
                1
            } else if buffer[1] == 0 {
                0
            } else if have - 2 < buffer[1] as usize {
                2 + buffer[1] as usize - have
            } else {
                0
            }
        },
        FrameKind::Credentials => {
            if have < 1 {
                2
            } else if buffer[0] != USER_PASSWORD_VERSION {
                0
            } else if have < 2 {
                1
            } else if buffer[1] == 0 {
                0
            } else if have - 2 <= buffer[1] as usize {
                3 + buffer[1] as usize - have
            } else {
                let at: usize = 2 + buffer[1] as usize;
                if buffer[at] == 0 {
                    0
                } else if have - at - 1 < buffer[at] as usize {
                    at + 1 + buffer[at] as usize - have
                } else {
                    0
                }
            }
        },
        FrameKind::Request => {
            if have < 1 {
                4
            } else if buffer[0] != SOCKS5_VERSION {
                0
            } else if have < 4 {
                4 - have
            } else if Command::from_byte(buffer[1]).is_none() {
                0
            } else if buffer[2] != RESERVED {
                0
            } else {
                proof {
                    lemma_request_field(buffer@);
                }
                let total: usize = if buffer[3] == ATYP_IPV4 {
                    10
                } else if buffer[3] == ATYP_IPV6 {
                    22
                } else if buffer[3] == ATYP_DOMAIN_NAME {
                    if have < 5 {
                        5
                    } else if buffer[4] == 0 {
                        0
                    } else {
                        7 + buffer[4] as usize
                    }
                } else {
                    0
                };
                if have < total {
                    total - have
                } else {
                    0
                }
            }
        },
    }
}

/// The bytes that the address field of a request is read from, seen from
/// the frame's first byte.
proof fn lemma_request_field(buffer: Seq<u8>)
    requires
        buffer.len() >= 4,
    ensures
        buffer.subrange(4, buffer.len() as int).len() == buffer.len() - 4,
        buffer.len() >= 5 ==> buffer.subrange(4, buffer.len() as int)[0] == buffer[4],
{
}

/// No frame ends before the length known of it: whatever bytes follow
/// `buffer`, a frame that decodes from them is at least as long as
/// `buffer` already shows. So a reader that takes `shortfall` bytes at a
/// time never reads beyond the end of the frame.
pub proof fn lemma_never_beyond_frame(kind: FrameKind, buffer: Seq<u8>, more: Seq<u8>)
    requires
        frame_len(kind, buffer + more) is Some,
    ensures
        known_len(kind, buffer) <= frame_len(kind, buffer + more)->Some_0,
        known_len(kind, buffer) > buffer.len() ==> decode_fault(kind, buffer) is Some,
{
    let whole = buffer + more;
    assert(forall|i: int| 0 <= i < buffer.len() ==> whole[i] == buffer[i]);
    match kind {
        FrameKind::Greeting => {},
        FrameKind::Credentials => {},
        FrameKind::Request => {
            lemma_request_field(whole);
            if buffer.len() >= 4 {
                lemma_request_field(buffer);
            }
        },
    }
}

/// Reading what is missing gets somewhere: once `shortfall` more bytes
/// have arrived, either nothing is missing any more or the frame is known
/// to be longer than it was known to be. A frame has at most 513 bytes, so
/// the reader is done after a few reads.
pub proof fn lemma_reading_progresses(kind: FrameKind, buffer: Seq<u8>, more: Seq<u8>)
    requires
        shortfall(kind, buffer) > 0,
        more.len() == shortfall(kind, buffer),
    ensures
        shortfall(kind, buffer + more) == 0 || known_len(kind, buffer + more) > known_len(
            kind,
            buffer,
        ),
        known_len(kind, buffer) <= 513,
{
    let whole = buffer + more;
    assert(forall|i: int| 0 <= i < buffer.len() ==> whole[i] == buffer[i]);
    match kind {
        FrameKind::Greeting => {},
        FrameKind::Credentials => {},
        FrameKind::Request => {
            lemma_request_field(whole);
            if buffer.len() >= 4 {
                lemma_request_field(buffer);
            }
        },
    }
}

} // verus!
