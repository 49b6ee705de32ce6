//! The greeting exchange: the client offers authentication methods, the
//! server names the one it picked.

use vstd::prelude::*;
use crate::bytes::{append, copy_range};
use crate::codes::{AuthMethod, Socks5Error, SERVER_NO_ACCEPTABLE_METHOD, SOCKS5_VERSION};

verus! {

/// The client's greeting: the method codes it offers, in the order sent.
///
/// On the wire: the version, the number of methods, then one byte for each.
/// A valid greeting offers 1 to 255 codes; a code may occur more than once.
#[allow(non_camel_case_types)]
#[derive(Debug, PartialEq, Eq)]
pub struct s5client_netotiation_request {
    pub methods: Vec<u8>,
}

/// The mathematical value of a greeting: the sequence of offered codes.
pub struct GreetingModel {
    pub methods: Seq<u8>,
}

impl GreetingModel {
    /// A greeting offers at least one method and at most 255.
    pub open spec fn wf(self) -> bool {
        1 <= self.methods.len() <= 255
    }

    /// The greeting's frame.
    pub open spec fn wire(self) -> Seq<u8> {
        seq![SOCKS5_VERSION, self.methods.len() as u8] + self.methods
    }

    /// What decoding a greeting from the front of `buffer` gives: the
    /// greeting and the length of its frame, or the first fault met when
    /// reading the version, then the count, then the methods.
    pub open spec fn decode_spec(buffer: Seq<u8>) -> Result<(GreetingModel, nat), Socks5Error> {
        if buffer.len() < 1 {
            Err(Socks5Error::TruncatedFrame)
        } else if buffer[0] != SOCKS5_VERSION {
            Err(Socks5Error::UnsupportedVersion)
        } else if buffer.len() < 2 {
            Err(Socks5Error::TruncatedFrame)
        } else if buffer[1] == 0 {
            Err(Socks5Error::MalformedLength)
        } else if buffer.len() < 2 + buffer[1] {
            Err(Socks5Error::TruncatedFrame)
        } else {
            Ok(
                (
                    GreetingModel { methods: buffer.subrange(2, 2 + buffer[1]) },
                    (2 + buffer[1]) as nat,
                ),
            )
        }
    }
}

impl View for s5client_netotiation_request {
    type V = GreetingModel;

    open spec fn view(&self) -> GreetingModel {
        GreetingModel { methods: self.methods@ }
    }
}

impl Default for s5client_netotiation_request {
    /// The greeting of a client that can do without authentication and can
    /// authenticate by user name and password.
    fn default() -> (greeting: Self)
        ensures
            greeting@.methods == seq![AuthMethod::NoAuth.code(), AuthMethod::UserPassword.code()],
            greeting@.wf(),
    {
        let mut methods: Vec<u8> = Vec::new();
        methods.push(AuthMethod::NoAuth.to_byte());
        methods.push(AuthMethod::UserPassword.to_byte());
        assert(methods@ =~= seq![AuthMethod::NoAuth.code(), AuthMethod::UserPassword.code()]);
        s5client_netotiation_request { methods }
    }
}

impl s5client_netotiation_request {
    /// Whether the greeting can be put on the wire.
    pub fn is_valid(&self) -> (valid: bool)
        ensures
            valid == self@.wf(),
    {
        1 <= self.methods.len() && self.methods.len() <= 255
    }

    /// Writes the frame of a valid greeting. Decoding the frame gives the
    /// greeting back.
    pub fn encode(&self) -> (bytes: Vec<u8>)
        requires
            self@.wf(),
        ensures
            bytes@ == self@.wire(),
            GreetingModel::decode_spec(bytes@) == Ok::<(GreetingModel, nat), Socks5Error>(
                (self@, bytes@.len()),
            ),
    {
        let mut bytes: Vec<u8> = Vec::new();
        bytes.push(SOCKS5_VERSION);
        bytes.push(self.methods.len() as u8);
        append(&mut bytes, self.methods.as_slice());
        assert(bytes@ =~= self@.wire());
        proof {
            lemma_greeting_round_trip(self@, Seq::empty());
            assert(bytes@ + Seq::<u8>::empty() =~= bytes@);
        }
        bytes
    }

    /// Reads a greeting from the front of `buffer` and says how long its
    /// frame is. Bytes behind the frame are not looked at, and the greeting
    /// read encodes to exactly the frame.
    pub fn decode(buffer: &[u8]) -> (result: Result<(Self, usize), Socks5Error>)
        ensures
            match result {
                Ok((greeting, consumed)) => GreetingModel::decode_spec(buffer@) == Ok::<
                    (GreetingModel, nat),
                    Socks5Error,
                >((greeting@, consumed as nat)),
                Err(error) => GreetingModel::decode_spec(buffer@) == Err::<
                    (GreetingModel, nat),
                    Socks5Error,
                >(error),
            },
            result matches Ok((greeting, consumed)) ==> {
                &&& greeting@.wf()
                &&& consumed <= buffer@.len()
                &&& greeting@.wire() == buffer@.subrange(0, consumed as int)
            },
    {
        proof {
            if GreetingModel::decode_spec(buffer@) is Ok {
                lemma_greeting_reencode(buffer@);
            }
        }
        if buffer.len() < 1 {
            return Err(Socks5Error::TruncatedFrame);
        }
        if buffer[0] != SOCKS5_VERSION {
            return Err(Socks5Error::UnsupportedVersion);
        }
        if buffer.len() < 2 {
            return Err(Socks5Error::TruncatedFrame);
        }
        if buffer[1] == 0 {
            return Err(Socks5Error::MalformedLength);
        }
        let end: usize = 2 + buffer[1] as usize;
        if buffer.len() < end {
            return Err(Socks5Error::TruncatedFrame);
        }
        let methods = copy_range(buffer, 2, end);
        Ok((s5client_netotiation_request { methods }, end))
    }
}

/// Decoding the frame of a valid greeting gives that greeting back and
/// consumes exactly the frame, whatever bytes follow it.
pub proof fn lemma_greeting_round_trip(greeting: GreetingModel, rest: Seq<u8>)
    requires
        greeting.wf(),
    ensures
        GreetingModel::decode_spec(greeting.wire() + rest) == Ok::<
            (GreetingModel, nat),
            Socks5Error,
        >((greeting, greeting.wire().len())),
{
    let buffer = greeting.wire() + rest;
    assert(buffer[0] == SOCKS5_VERSION);
    assert(buffer[1] == greeting.methods.len() as u8);
    assert(buffer.subrange(2, 2 + buffer[1]) =~= greeting.methods);
}

/// A greeting that decodes is valid, and its frame is exactly the bytes
/// that were consumed.
pub proof fn lemma_greeting_reencode(buffer: Seq<u8>)
    requires
        GreetingModel::decode_spec(buffer) is Ok,
    ensures
        ({
            let (greeting, consumed) = GreetingModel::decode_spec(buffer)->Ok_0;
            &&& greeting.wf()
            &&& consumed <= buffer.len()
            &&& greeting.wire() == buffer.subrange(0, consumed as int)
        }),
{
    let (greeting, consumed) = GreetingModel::decode_spec(buffer)->Ok_0;
    assert(greeting.wire() =~= buffer.subrange(0, consumed as int));
}

/// The server's answer to a greeting: the code of the method it selected,
/// or `0xFF` when it accepts none of those offered.
#[allow(non_camel_case_types)]
#[derive(Debug, Clone, Copy, PartialEq, Eq, Structural)]
pub struct s5server_negotiation_resp {
    pub method: u8,
}

impl s5server_negotiation_resp {
    /// The answer's frame: the version, then the method code.
    pub open spec fn wire(self) -> Seq<u8> {
        seq![SOCKS5_VERSION, self.method]
    }

    /// What decoding an answer from the front of `buffer` gives: the answer
    /// and the length of its frame, or the first fault met when reading the
    /// version, then the method.
    pub open spec fn decode_spec(buffer: Seq<u8>) -> Result<
        (s5server_negotiation_resp, nat),
        Socks5Error,
    > {
        if buffer.len() < 1 {
            Err(Socks5Error::TruncatedFrame)
        } else if buffer[0] != SOCKS5_VERSION {
            Err(Socks5Error::UnsupportedVersion)
        } else if buffer.len() < 2 {
            Err(Socks5Error::TruncatedFrame)
        } else {
            Ok((s5server_negotiation_resp { method: buffer[1] }, 2nat))
        }
    }

    /// The answer that selects `auth_method`.
    pub fn new(auth_method: AuthMethod) -> (response: Self)
        ensures
            response.method == auth_method.code(),
    {
        s5server_negotiation_resp { method: auth_method.to_byte() }
    }

    /// The answer that turns down every offered method.
    pub fn none_acceptable() -> (response: Self)
        ensures
            response.method == SERVER_NO_ACCEPTABLE_METHOD,
    {
        s5server_negotiation_resp { method: SERVER_NO_ACCEPTABLE_METHOD }
    }

    /// Writes the answer's frame. Decoding the frame gives the answer back.
    pub fn to_bytes(&self) -> (bytes: [u8; 2])
        ensures
            bytes@ == self.wire(),
            Self::decode_spec(bytes@) == Ok::<(s5server_negotiation_resp, nat), Socks5Error>(
                (*self, 2nat),
            ),
    {
        let bytes: [u8; 2] = [SOCKS5_VERSION, self.method];
        assert(bytes@ =~= self.wire());
        bytes
    }

    /// Reads an answer from the front of `buffer` and says how long its
    /// frame is. Bytes behind the frame are not looked at, and the answer
    /// read encodes to exactly the frame.
    pub fn decode(buffer: &[u8]) -> (result: Result<(Self, usize), Socks5Error>)
        ensures
            match result {
                Ok((response, consumed)) => Self::decode_spec(buffer@) == Ok::<
                    (s5server_negotiation_resp, nat),
                    Socks5Error,
                >((response, consumed as nat)),
                Err(error) => Self::decode_spec(buffer@) == Err::<
                    (s5server_negotiation_resp, nat),
                    Socks5Error,
                >(error),
            },
            result matches Ok((response, consumed)) ==> {
                &&& consumed <= buffer@.len()
                &&& response.wire() == buffer@.subrange(0, consumed as int)
            },
    {
        proof {
            if Self::decode_spec(buffer@) is Ok {
                lemma_negotiation_resp_reencode(buffer@);
            }
        }
        if buffer.len() < 1 {
            return Err(Socks5Error::TruncatedFrame);
        }
        if buffer[0] != SOCKS5_VERSION {
            return Err(Socks5Error::UnsupportedVersion);
        }
        if buffer.len() < 2 {
            return Err(Socks5Error::TruncatedFrame);
        }
        Ok((s5server_negotiation_resp { method: buffer[1] }, 2))
    }
}

/// Decoding the frame of an answer gives that answer back and consumes
/// exactly the frame, whatever bytes follow it.
pub proof fn lemma_negotiation_resp_round_trip(response: s5server_negotiation_resp, rest: Seq<u8>)
    ensures
        s5server_negotiation_resp::decode_spec(response.wire() + rest) == Ok::<
            (s5server_negotiation_resp, nat),
            Socks5Error,
        >((response, response.wire().len())),
{
    let buffer = response.wire() + rest;
    assert(buffer[0] == SOCKS5_VERSION);
    assert(buffer[1] == response.method);
}

/// The frame of an answer that decodes is exactly the bytes that were
/// consumed.
pub proof fn lemma_negotiation_resp_reencode(buffer: Seq<u8>)
    requires
        s5server_negotiation_resp::decode_spec(buffer) is Ok,
    ensures
        ({
            let (response, consumed) = s5server_negotiation_resp::decode_spec(buffer)->Ok_0;
            &&& consumed <= buffer.len()
            &&& response.wire() == buffer.subrange(0, consumed as int)
        }),
{
    let (response, consumed) = s5server_negotiation_resp::decode_spec(buffer)->Ok_0;
    assert(response.wire() =~= buffer.subrange(0, consumed as int));
}

} // verus!
