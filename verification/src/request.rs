//! The connection request and the server's reply to it. Both frames have
//! the same shape: version, a code, the reserved byte, then an endpoint
//! (address type, address, port).

use vstd::prelude::*;
use vstd::slice::slice_subrange;
use crate::address::{
    address_field_spec,
    decode_address_field,
    encode_address,
    lemma_address_field,
    lemma_address_reencode,
    Address,
    AddressModel,
};
use crate::bytes::{append, be16, be16_bytes, lemma_be16_round_trip, push_be16, read_be16};
use crate::codes::{Command, ReplyCode, Socks5Error, RESERVED, SOCKS5_VERSION};

verus! {

/// The frame that carries `code` and the endpoint `address`, `port`.
pub open spec fn envelope_wire(code: u8, address: AddressModel, port: u16) -> Seq<u8> {
    seq![SOCKS5_VERSION, code, RESERVED, address.atyp()] + address.wire() + be16_bytes(port)
}

/// The fault in the first bytes of a request or reply, if there is one: the
/// version is checked as soon as it is there, and the four fixed bytes must
/// all be there before any other is looked at.
pub open spec fn envelope_header_fault(buffer: Seq<u8>) -> Option<Socks5Error> {
    if buffer.len() < 1 {
        Some(Socks5Error::TruncatedFrame)
    } else if buffer[0] != SOCKS5_VERSION {
        Some(Socks5Error::UnsupportedVersion)
    } else if buffer.len() < 4 {
        Some(Socks5Error::TruncatedFrame)
    } else {
        None
    }
}

/// What reading the endpoint of a request or reply gives, for a `buffer`
/// that holds the frame from its first byte and is at least four bytes
/// long: the address, the port and the length of the whole frame, or the
/// first fault met when reading the reserved byte, the address field and
/// the port, in this order. A reserved byte other than zero is reported as
/// `UnsupportedVersion`.
pub open spec fn endpoint_spec(buffer: Seq<u8>) -> Result<(AddressModel, u16, nat), Socks5Error> {
    if buffer[2] != RESERVED {
        Err(Socks5Error::UnsupportedVersion)
    } else {
        match address_field_spec(buffer.subrange(4, buffer.len() as int), buffer[3]) {
            Err(error) => Err(error),
            Ok((address, taken)) => {
                if buffer.len() < 6 + taken {
                    Err(Socks5Error::TruncatedFrame)
                } else {
                    let port = be16(buffer[4 + taken as int], buffer[5 + taken as int]);
                    Ok((address, port, 6 + taken))
                }
            },
        }
    }
}

/// Checks the first bytes of a request or reply.
fn check_envelope_header(buffer: &[u8]) -> (result: Result<(), Socks5Error>)
    ensures
        match result {
            Ok(_) => envelope_header_fault(buffer@) is None,
            Err(error) => envelope_header_fault(buffer@) == Some(error),
        },
{
    if buffer.len() < 1 {
        return Err(Socks5Error::TruncatedFrame);
    }
    if buffer[0] != SOCKS5_VERSION {
        return Err(Socks5Error::UnsupportedVersion);
    }
    if buffer.len() < 4 {
        return Err(Socks5Error::TruncatedFrame);
    }
    Ok(())
}

/// Reads the endpoint of a request or reply whose first four bytes are there.
fn decode_endpoint(buffer: &[u8]) -> (result: Result<(Address, u16, usize), Socks5Error>)
    requires
        buffer@.len() >= 4,
    ensures
        match result {
            Ok((address, port, consumed)) => endpoint_spec(buffer@) == Ok::<
                (AddressModel, u16, nat),
                Socks5Error,
            >((address@, port, consumed as nat)),
            Err(error) => endpoint_spec(buffer@) == Err::<(AddressModel, u16, nat), Socks5Error>(
                error,
            ),
        },
{
    if buffer[2] != RESERVED {
        return Err(Socks5Error::UnsupportedVersion);
    }
    let field = slice_subrange(buffer, 4, buffer.len());
    match decode_address_field(field, buffer[3]) {
        Err(error) => Err(error),
        Ok((address, taken)) => {
            if buffer.len() - 4 - taken < 2 {
                return Err(Socks5Error::TruncatedFrame);
            }
            let port = read_be16(buffer, 4 + taken);
            Ok((address, port, 6 + taken))
        },
    }
}

/// Writes the frame that carries `code` and the endpoint `address`, `port`.
fn encode_envelope(code: u8, address: &Address, port: u16) -> (bytes: Vec<u8>)
    requires
        address@.wf(),
    ensures
        bytes@ == envelope_wire(code, address@, port),
{
    let mut bytes: Vec<u8> = Vec::new();
    bytes.push(SOCKS5_VERSION);
    bytes.push(code);
    bytes.push(RESERVED);
    bytes.push(address.atyp());
    let field = encode_address(address);
    append(&mut bytes, field.as_slice());
    push_be16(&mut bytes, port);
    assert(bytes@ =~= envelope_wire(code, address@, port));
    bytes
}

/// The endpoint of a frame written from a valid address is read back,
/// whatever bytes follow the frame.
proof fn lemma_endpoint_round_trip(code: u8, address: AddressModel, port: u16, rest: Seq<u8>)
    requires
        address.wf(),
    ensures
        envelope_header_fault(envelope_wire(code, address, port) + rest) is None,
        (envelope_wire(code, address, port) + rest)[1] == code,
        endpoint_spec(envelope_wire(code, address, port) + rest) == Ok::<
            (AddressModel, u16, nat),
            Socks5Error,
        >((address, port, envelope_wire(code, address, port).len())),
{
    let frame = envelope_wire(code, address, port);
    let buffer = frame + rest;
    let taken = address.wire().len() as int;
    lemma_be16_round_trip(port, 0, 0);
    assert(frame.len() == 6 + taken);
    assert(buffer[0] == SOCKS5_VERSION);
    assert(buffer[1] == code);
    assert(buffer[2] == RESERVED);
    assert(buffer[3] == address.atyp());
    assert(buffer.subrange(4, buffer.len() as int) =~= address.wire() + (be16_bytes(port) + rest));
    lemma_address_field(Seq::empty(), 0, address, be16_bytes(port) + rest);
    assert(buffer[4 + taken] == be16_bytes(port)[0]);
    assert(buffer[5 + taken] == be16_bytes(port)[1]);
}

/// A frame whose header has no fault and whose endpoint is read is, up to
/// the length read, the frame written from its second byte and that
/// endpoint; and the address read is valid.
proof fn lemma_endpoint_reencode(buffer: Seq<u8>)
    requires
        envelope_header_fault(buffer) is None,
        endpoint_spec(buffer) is Ok,
    ensures
        ({
            let (address, port, consumed) = endpoint_spec(buffer)->Ok_0;
            &&& address.wf()
            &&& consumed <= buffer.len()
            &&& envelope_wire(buffer[1], address, port) == buffer.subrange(0, consumed as int)
        }),
{
    let (address, port, consumed) = endpoint_spec(buffer)->Ok_0;
    let field = buffer.subrange(4, buffer.len() as int);
    lemma_address_field(field, buffer[3], address, Seq::empty());
    lemma_address_reencode(field, buffer[3]);
    let taken = address.wire().len() as int;
    lemma_be16_round_trip(0, buffer[4 + taken], buffer[5 + taken]);
    assert(address.wire() =~= buffer.subrange(4, 4 + taken));
    assert(envelope_wire(buffer[1], address, port) =~= buffer.subrange(0, consumed as int));
}

/// The client's request: a command and the destination it is about.
#[allow(non_camel_case_types)]
#[derive(Debug, PartialEq, Eq)]
pub struct s5client_2dest_request {
    pub cmd: Command,
    pub dst_addr: Address,
    pub dst_port: u16,
}

/// The mathematical value of a request.
pub struct RequestModel {
    pub cmd: Command,
    pub dst_addr: AddressModel,
    pub dst_port: u16,
}

impl RequestModel {
    /// A request is valid when its address is.
    pub open spec fn wf(self) -> bool {
        self.dst_addr.wf()
    }

    /// The request's frame.
    pub open spec fn wire(self) -> Seq<u8> {
        envelope_wire(self.cmd.code(), self.dst_addr, self.dst_port)
    }

    /// What decoding a request from the front of `buffer` gives: the request
    /// and the length of its frame, or the first fault met. An unknown
    /// command byte is `UnsupportedCommand`.
    pub open spec fn decode_spec(buffer: Seq<u8>) -> Result<(RequestModel, nat), Socks5Error> {
        if envelope_header_fault(buffer) is Some {
            Err(envelope_header_fault(buffer)->Some_0)
        } else if Command::of_code(buffer[1]) is None {
            Err(Socks5Error::UnsupportedCommand)
        } else {
            match endpoint_spec(buffer) {
                Err(error) => Err(error),
                Ok((address, port, consumed)) => Ok(
                    (
                        RequestModel {
                            cmd: Command::of_code(buffer[1])->Some_0,
                            dst_addr: address,
                            dst_port: port,
                        },
                        consumed,
                    ),
                ),
            }
        }
    }
}

impl View for s5client_2dest_request {
    type V = RequestModel;

    open spec fn view(&self) -> RequestModel {
        RequestModel { cmd: self.cmd, dst_addr: self.dst_addr@, dst_port: self.dst_port }
    }
}

impl Clone for s5client_2dest_request {
    fn clone(&self) -> (copy: Self)
        ensures
            copy@ == self@,
    {
        s5client_2dest_request {
            cmd: self.cmd,
            dst_addr: self.dst_addr.clone(),
            dst_port: self.dst_port,
        }
    }
}

impl s5client_2dest_request {
    /// Whether the request can be put on the wire.
    pub fn is_valid(&self) -> (valid: bool)
        ensures
            valid == self@.wf(),
    {
        self.dst_addr.is_valid()
    }

    /// Writes the frame of a valid request. Decoding the frame gives the
    /// request back.
    pub fn encode(&self) -> (bytes: Vec<u8>)
        requires
            self@.wf(),
        ensures
            bytes@ == self@.wire(),
            RequestModel::decode_spec(bytes@) == Ok::<(RequestModel, nat), Socks5Error>(
                (self@, bytes@.len()),
            ),
    {
        let bytes = encode_envelope(self.cmd.to_byte(), &self.dst_addr, self.dst_port);
        proof {
            lemma_request_round_trip(self@, Seq::empty());
            assert(bytes@ + Seq::<u8>::empty() =~= bytes@);
        }
        bytes
    }

    /// Reads a request from the front of `buffer` and says how long its
    /// frame is. Bytes behind the frame are not looked at, and the request
    /// read encodes to exactly the frame.
    pub fn decode(buffer: &[u8]) -> (result: Result<(Self, usize), Socks5Error>)
        ensures
            match result {
                Ok((request, consumed)) => RequestModel::decode_spec(buffer@) == Ok::<
                    (RequestModel, nat),
                    Socks5Error,
                >((request@, consumed as nat)),
                Err(error) => RequestModel::decode_spec(buffer@) == Err::<
                    (RequestModel, nat),
                    Socks5Error,
                >(error),
            },
            result matches Ok((request, consumed)) ==> {
                &&& request@.wf()
                &&& consumed <= buffer@.len()
                &&& request@.wire() == buffer@.subrange(0, consumed as int)
            },
    {
        proof {
            if RequestModel::decode_spec(buffer@) is Ok {
                lemma_request_reencode(buffer@);
            }
        }
        match check_envelope_header(buffer) {
            Err(error) => {
                return Err(error);
            },
            Ok(_) => {},
        }
        let cmd = match Command::from_byte(buffer[1]) {
            None => {
                return Err(Socks5Error::UnsupportedCommand);
            },
            Some(cmd) => cmd,
        };
        match decode_endpoint(buffer) {
            Err(error) => Err(error),
            Ok((dst_addr, dst_port, consumed)) => Ok(
                (s5client_2dest_request { cmd, dst_addr, dst_port }, consumed),
            ),
        }
    }
}

/// Decoding the frame of a valid request gives that request back and
/// consumes exactly the frame, whatever bytes follow it.
pub proof fn lemma_request_round_trip(request: RequestModel, rest: Seq<u8>)
    requires
        request.wf(),
    ensures
        RequestModel::decode_spec(request.wire() + rest) == Ok::<(RequestModel, nat), Socks5Error>(
            (request, request.wire().len()),
        ),
{
    lemma_endpoint_round_trip(request.cmd.code(), request.dst_addr, request.dst_port, rest);
    Command::lemma_code_round_trip(request.cmd, 0);
}

/// A request that decodes is valid, and its frame is exactly the bytes that
/// were consumed.
pub proof fn lemma_request_reencode(buffer: Seq<u8>)
    requires
        RequestModel::decode_spec(buffer) is Ok,
    ensures
        ({
            let (request, consumed) = RequestModel::decode_spec(buffer)->Ok_0;
            &&& request.wf()
            &&& consumed <= buffer.len()
            &&& request.wire() == buffer.subrange(0, consumed as int)
        }),
{
    lemma_endpoint_reencode(buffer);
    Command::lemma_code_round_trip(Command::Connect, buffer[1]);
}

/// The server's reply: the outcome and the endpoint that the relay is bound
/// to (all zero where the server has no separate relay endpoint).
#[allow(non_camel_case_types)]
#[derive(Debug, PartialEq, Eq)]
pub struct s5server_reply {
    pub rep: ReplyCode,
    pub bnd_addr: Address,
    pub bnd_port: u16,
}

/// The mathematical value of a reply.
pub struct ReplyModel {
    pub rep: ReplyCode,
    pub bnd_addr: AddressModel,
    pub bnd_port: u16,
}

impl ReplyModel {
    /// A reply is valid when its address is.
    pub open spec fn wf(self) -> bool {
        self.bnd_addr.wf()
    }

    /// The reply's frame.
    pub open spec fn wire(self) -> Seq<u8> {
        envelope_wire(self.rep.code(), self.bnd_addr, self.bnd_port)
    }

    /// The reply that reports `rep` with the all-zero endpoint `0.0.0.0:0`.
    pub open spec fn unbound(rep: ReplyCode) -> ReplyModel {
        ReplyModel { rep, bnd_addr: AddressModel::unspecified(), bnd_port: 0 }
    }

    /// What decoding a reply from the front of `buffer` gives: the reply and
    /// the length of its frame, or the first fault met. A reply code that
    /// the protocol version does not assign is `UnsupportedVersion`.
    pub open spec fn decode_spec(buffer: Seq<u8>) -> Result<(ReplyModel, nat), Socks5Error> {
        if envelope_header_fault(buffer) is Some {
            Err(envelope_header_fault(buffer)->Some_0)
        } else if ReplyCode::of_code(buffer[1]) is None {
            Err(Socks5Error::UnsupportedVersion)
        } else {
            match endpoint_spec(buffer) {
                Err(error) => Err(error),
                Ok((address, port, consumed)) => Ok(
                    (
                        ReplyModel {
                            rep: ReplyCode::of_code(buffer[1])->Some_0,
                            bnd_addr: address,
                            bnd_port: port,
                        },
                        consumed,
                    ),
                ),
            }
        }
    }
}

impl View for s5server_reply {
    type V = ReplyModel;

    open spec fn view(&self) -> ReplyModel {
        ReplyModel { rep: self.rep, bnd_addr: self.bnd_addr@, bnd_port: self.bnd_port }
    }
}

impl s5server_reply {
    /// The reply that reports `rep` with the all-zero endpoint `0.0.0.0:0`.
    pub fn unbound(rep: ReplyCode) -> (reply: Self)
        ensures
            reply@ == ReplyModel::unbound(rep),
            reply@.wf(),
    {
        s5server_reply { rep, bnd_addr: Address::unspecified(), bnd_port: 0 }
    }

    /// Whether the reply can be put on the wire.
    pub fn is_valid(&self) -> (valid: bool)
        ensures
            valid == self@.wf(),
    {
        self.bnd_addr.is_valid()
    }

    /// Writes the frame of a valid reply. Decoding the frame gives the reply
    /// back.
    pub fn encode(&self) -> (bytes: Vec<u8>)
        requires
            self@.wf(),
        ensures
            bytes@ == self@.wire(),
            ReplyModel::decode_spec(bytes@) == Ok::<(ReplyModel, nat), Socks5Error>(
                (self@, bytes@.len()),
            ),
    {
        let bytes = encode_envelope(self.rep.to_byte(), &self.bnd_addr, self.bnd_port);
        proof {
            lemma_reply_round_trip(self@, Seq::empty());
            assert(bytes@ + Seq::<u8>::empty() =~= bytes@);
        }
        bytes
    }

    /// Reads a reply from the front of `buffer` and says how long its frame
    /// is. Bytes behind the frame are not looked at, and the reply read
    /// encodes to exactly the frame.
    pub fn decode(buffer: &[u8]) -> (result: Result<(Self, usize), Socks5Error>)
        ensures
            match result {
                Ok((reply, consumed)) => ReplyModel::decode_spec(buffer@) == Ok::<
                    (ReplyModel, nat),
                    Socks5Error,
                >((reply@, consumed as nat)),
                Err(error) => ReplyModel::decode_spec(buffer@) == Err::<
                    (ReplyModel, nat),
                    Socks5Error,
                >(error),
            },
            result matches Ok((reply, consumed)) ==> {
                &&& reply@.wf()
                &&& consumed <= buffer@.len()
                &&& reply@.wire() == buffer@.subrange(0, consumed as int)
            },
    {
        proof {
            if ReplyModel::decode_spec(buffer@) is Ok {
                lemma_reply_reencode(buffer@);
            }
        }
        match check_envelope_header(buffer) {
            Err(error) => {
                return Err(error);
            },
            Ok(_) => {},
        }
        let rep = match ReplyCode::from_byte(buffer[1]) {
            None => {
                return Err(Socks5Error::UnsupportedVersion);
            },
            Some(rep) => rep,
        };
        match decode_endpoint(buffer) {
            Err(error) => Err(error),
            Ok((bnd_addr, bnd_port, consumed)) => Ok(
                (s5server_reply { rep, bnd_addr, bnd_port }, consumed),
            ),
        }
    }
}

/// Decoding the frame of a valid reply gives that reply back and consumes
/// exactly the frame, whatever bytes follow it.
pub proof fn lemma_reply_round_trip(reply: ReplyModel, rest: Seq<u8>)
    requires
        reply.wf(),
    ensures
        ReplyModel::decode_spec(reply.wire() + rest) == Ok::<(ReplyModel, nat), Socks5Error>(
            (reply, reply.wire().len()),
        ),
{
    lemma_endpoint_round_trip(reply.rep.code(), reply.bnd_addr, reply.bnd_port, rest);
    ReplyCode::lemma_code_round_trip(reply.rep, 0);
}

/// A reply that decodes is valid, and its frame is exactly the bytes that
/// were consumed.
pub proof fn lemma_reply_reencode(buffer: Seq<u8>)
    requires
        ReplyModel::decode_spec(buffer) is Ok,
    ensures
        ({
            let (reply, consumed) = ReplyModel::decode_spec(buffer)->Ok_0;
            &&& reply.wf()
            &&& consumed <= buffer.len()
            &&& reply.wire() == buffer.subrange(0, consumed as int)
        }),
{
    lemma_endpoint_reencode(buffer);
    ReplyCode::lemma_code_round_trip(ReplyCode::Succeeded, buffer[1]);
}

} // verus!
