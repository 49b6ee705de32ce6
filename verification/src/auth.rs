//! The username/password sub-negotiation of RFC 1929: the client sends its
//! credentials, the server answers with a status byte.

use vstd::prelude::*;
use crate::bytes::{append, copy_range};
use crate::codes::{
    Socks5Error,
    AUTH_STATUS_FAILURE,
    AUTH_STATUS_SUCCESS,
    USER_PASSWORD_VERSION,
};

verus! {

/// The client's credentials.
///
/// On the wire: the sub-negotiation version, the user name behind its length
/// byte, the password behind its length byte. Valid credentials hold 1 to
/// 255 bytes in each of the two.
#[allow(non_camel_case_types)]
#[derive(Debug, PartialEq, Eq)]
pub struct s5client_upw_auth_request {
    pub uname: Vec<u8>,
    pub passwd: Vec<u8>,
}

/// The mathematical value of a credentials frame.
pub struct CredentialsModel {
    pub uname: Seq<u8>,
    pub passwd: Seq<u8>,
}

impl CredentialsModel {
    /// Neither the user name nor the password is empty or longer than 255.
    pub open spec fn wf(self) -> bool {
        &&& 1 <= self.uname.len() <= 255
        &&& 1 <= self.passwd.len() <= 255
    }

    /// The credentials' frame.
    pub open spec fn wire(self) -> Seq<u8> {
        seq![USER_PASSWORD_VERSION, self.uname.len() as u8] + self.uname
            + seq![self.passwd.len() as u8] + self.passwd
    }

    /// What decoding credentials from the front of `buffer` gives: the
    /// credentials and the length of their frame, or the first fault met when
    /// reading the version, the name's length, the name, the password's
    /// length, the password, in this order.
    pub open spec fn decode_spec(buffer: Seq<u8>) -> Result<(CredentialsModel, nat), Socks5Error> {
        if buffer.len() < 1 {
            Err(Socks5Error::TruncatedFrame)
        } else if buffer[0] != USER_PASSWORD_VERSION {
            Err(Socks5Error::UnsupportedVersion)
        } else if buffer.len() < 2 {
            Err(Socks5Error::TruncatedFrame)
        } else if buffer[1] == 0 {
            Err(Socks5Error::MalformedLength)
        } else if buffer.len() < 3 + buffer[1] {
            Err(Socks5Error::TruncatedFrame)
        } else if buffer[2 + buffer[1]] == 0 {
            Err(Socks5Error::MalformedLength)
        } else if buffer.len() < 3 + buffer[1] + buffer[2 + buffer[1]] {
            Err(Socks5Error::TruncatedFrame)
        } else {
            let ulen = buffer[1] as int;
            let plen = buffer[2 + ulen] as int;
            Ok(
                (
                    CredentialsModel {
                        uname: buffer.subrange(2, 2 + ulen),
                        passwd: buffer.subrange(3 + ulen, 3 + ulen + plen),
                    },
                    (3 + ulen + plen) as nat,
                ),
            )
        }
    }
}

impl View for s5client_upw_auth_request {
    type V = CredentialsModel;

    open spec fn view(&self) -> CredentialsModel {
        CredentialsModel { uname: self.uname@, passwd: self.passwd@ }
    }
}

impl s5client_upw_auth_request {
    /// Whether the credentials can be put on the wire.
    pub fn is_valid(&self) -> (valid: bool)
        ensures
            valid == self@.wf(),
    {
        1 <= self.uname.len() && self.uname.len() <= 255 && 1 <= self.passwd.len()
            && self.passwd.len() <= 255
    }

    /// Writes the frame of valid credentials. Decoding the frame gives the
    /// credentials back.
    pub fn encode(&self) -> (bytes: Vec<u8>)
        requires
            self@.wf(),
        ensures
            bytes@ == self@.wire(),
            CredentialsModel::decode_spec(bytes@) == Ok::<(CredentialsModel, nat), Socks5Error>(
                (self@, bytes@.len()),
            ),
    {
        let mut bytes: Vec<u8> = Vec::new();
        bytes.push(USER_PASSWORD_VERSION);
        bytes.push(self.uname.len() as u8);
        append(&mut bytes, self.uname.as_slice());
        bytes.push(self.passwd.len() as u8);
        append(&mut bytes, self.passwd.as_slice());
        assert(bytes@ =~= self@.wire());
        proof {
            lemma_credentials_round_trip(self@, Seq::empty());
            assert(bytes@ + Seq::<u8>::empty() =~= bytes@);
        }
        bytes
    }

    /// Reads credentials from the front of `buffer` and says how long their
    /// frame is. Bytes behind the frame are not looked at, and the
    /// credentials read encode to exactly the frame.
    pub fn decode(buffer: &[u8]) -> (result: Result<(Self, usize), Socks5Error>)
        ensures
            match result {
                Ok((credentials, consumed)) => CredentialsModel::decode_spec(buffer@) == Ok::<
                    (CredentialsModel, nat),
                    Socks5Error,
                >((credentials@, consumed as nat)),
                Err(error) => CredentialsModel::decode_spec(buffer@) == Err::<
                    (CredentialsModel, nat),
                    Socks5Error,
                >(error),
            },
            result matches Ok((credentials, consumed)) ==> {
                &&& credentials@.wf()
                &&& consumed <= buffer@.len()
                &&& credentials@.wire() == buffer@.subrange(0, consumed as int)
            },
    {
        proof {
            if CredentialsModel::decode_spec(buffer@) is Ok {
                lemma_credentials_reencode(buffer@);
            }
        }
        if buffer.len() < 1 {
            return Err(Socks5Error::TruncatedFrame);
        }
        if buffer[0] != USER_PASSWORD_VERSION {
            return Err(Socks5Error::UnsupportedVersion);
        }
        if buffer.len() < 2 {
            return Err(Socks5Error::TruncatedFrame);
        }
        if buffer[1] == 0 {
            return Err(Socks5Error::MalformedLength);
        }
        let uname_end: usize = 2 + buffer[1] as usize;
        if buffer.len() < uname_end + 1 {
            return Err(Socks5Error::TruncatedFrame);
        }
        if buffer[uname_end] == 0 {
            return Err(Socks5Error::MalformedLength);
        }
        let passwd_end: usize = uname_end + 1 + buffer[uname_end] as usize;
        if buffer.len() < passwd_end {
            return Err(Socks5Error::TruncatedFrame);
        }
        let uname = copy_range(buffer, 2, uname_end);
        let passwd = copy_range(buffer, uname_end + 1, passwd_end);
        Ok((s5client_upw_auth_request { uname, passwd }, passwd_end))
    }
}

/// Decoding the frame of valid credentials gives them back and consumes
/// exactly the frame, whatever bytes follow it.
pub proof fn lemma_credentials_round_trip(credentials: CredentialsModel, rest: Seq<u8>)
    requires
        credentials.wf(),
    ensures
        CredentialsModel::decode_spec(credentials.wire() + rest) == Ok::<
            (CredentialsModel, nat),
            Socks5Error,
        >((credentials, credentials.wire().len())),
{
    let buffer = credentials.wire() + rest;
    let ulen = credentials.uname.len() as int;
    let plen = credentials.passwd.len() as int;
    assert(buffer.len() >= 3 + ulen + plen);
    assert(buffer[0] == USER_PASSWORD_VERSION);
    assert(buffer[1] == ulen as u8);
    assert(buffer[2 + ulen] == plen as u8);
    assert(buffer.subrange(2, 2 + ulen) =~= credentials.uname);
    assert(buffer.subrange(3 + ulen, 3 + ulen + plen) =~= credentials.passwd);
}

/// Credentials that decode are valid, and their frame is exactly the bytes
/// that were consumed.
pub proof fn lemma_credentials_reencode(buffer: Seq<u8>)
    requires
        CredentialsModel::decode_spec(buffer) is Ok,
    ensures
        ({
            let (credentials, consumed) = CredentialsModel::decode_spec(buffer)->Ok_0;
            &&& credentials.wf()
            &&& consumed <= buffer.len()
            &&& credentials.wire() == buffer.subrange(0, consumed as int)
        }),
{
    let (credentials, consumed) = CredentialsModel::decode_spec(buffer)->Ok_0;
    assert(credentials.wire() =~= buffer.subrange(0, consumed as int));
}

/// The server's verdict on the credentials: status `0x00` for success, any
/// other byte for failure.
#[allow(non_camel_case_types)]
#[derive(Debug, Clone, Copy, PartialEq, Eq, Structural)]
pub struct s5server_user_pw_negotiation_verification_result {
    pub status: u8,
}

impl s5server_user_pw_negotiation_verification_result {
    /// The verdict's frame: the sub-negotiation version, then the status.
    pub open spec fn wire(self) -> Seq<u8> {
        seq![USER_PASSWORD_VERSION, self.status]
    }

    /// Whether the status reports success.
    pub open spec fn accepted(self) -> bool {
        self.status == AUTH_STATUS_SUCCESS
    }

    /// What decoding a verdict from the front of `buffer` gives: the verdict
    /// and the length of its frame, or the first fault met when reading the
    /// version, then the status.
    pub open spec fn decode_spec(buffer: Seq<u8>) -> Result<
        (s5server_user_pw_negotiation_verification_result, nat),
        Socks5Error,
    > {
        if buffer.len() < 1 {
            Err(Socks5Error::TruncatedFrame)
        } else if buffer[0] != USER_PASSWORD_VERSION {
            Err(Socks5Error::UnsupportedVersion)
        } else if buffer.len() < 2 {
            Err(Socks5Error::TruncatedFrame)
        } else {
            Ok((s5server_user_pw_negotiation_verification_result { status: buffer[1] }, 2nat))
        }
    }

    /// The verdict for credentials that the authenticator accepted
    /// (`verified`) or turned down.
    pub fn new(verified: bool) -> (verdict: Self)
        ensures
            verdict.status == (if verified {
                AUTH_STATUS_SUCCESS
            } else {
                AUTH_STATUS_FAILURE
            }),
            verdict.accepted() == verified,
    {
        if verified {
            s5server_user_pw_negotiation_verification_result { status: AUTH_STATUS_SUCCESS }
        } else {
            s5server_user_pw_negotiation_verification_result { status: AUTH_STATUS_FAILURE }
        }
    }

    /// Whether the status reports success.
    pub fn is_success(&self) -> (success: bool)
        ensures
            success == self.accepted(),
    {
        self.status == AUTH_STATUS_SUCCESS
    }

    /// Writes the verdict's frame. Decoding the frame gives the verdict back.
    pub fn to_bytes(&self) -> (bytes: [u8; 2])
        ensures
            bytes@ == self.wire(),
            Self::decode_spec(bytes@) == Ok::<
                (s5server_user_pw_negotiation_verification_result, nat),
                Socks5Error,
            >((*self, 2nat)),
    {
        let bytes: [u8; 2] = [USER_PASSWORD_VERSION, self.status];
        assert(bytes@ =~= self.wire());
        bytes
    }

    /// Reads a verdict from the front of `buffer` and says how long its
    /// frame is. Bytes behind the frame are not looked at, and the verdict
    /// read encodes to exactly the frame.
    pub fn decode(buffer: &[u8]) -> (result: Result<(Self, usize), Socks5Error>)
        ensures
            match result {
                Ok((verdict, consumed)) => Self::decode_spec(buffer@) == Ok::<
                    (s5server_user_pw_negotiation_verification_result, nat),
                    Socks5Error,
                >((verdict, consumed as nat)),
                Err(error) => Self::decode_spec(buffer@) == Err::<
                    (s5server_user_pw_negotiation_verification_result, nat),
                    Socks5Error,
                >(error),
            },
            result matches Ok((verdict, consumed)) ==> {
                &&& consumed <= buffer@.len()
                &&& verdict.wire() == buffer@.subrange(0, consumed as int)
            },
    {
        proof {
            if Self::decode_spec(buffer@) is Ok {
                lemma_verification_result_reencode(buffer@);
            }
        }
        if buffer.len() < 1 {
            return Err(Socks5Error::TruncatedFrame);
        }
        if buffer[0] != USER_PASSWORD_VERSION {
            return Err(Socks5Error::UnsupportedVersion);
        }
        if buffer.len() < 2 {
            return Err(Socks5Error::TruncatedFrame);
        }
        Ok((s5server_user_pw_negotiation_verification_result { status: buffer[1] }, 2))
    }
}

/// Decoding the frame of a verdict gives that verdict back and consumes
/// exactly the frame, whatever bytes follow it.
pub proof fn lemma_verification_result_round_trip(
    verdict: s5server_user_pw_negotiation_verification_result,
    rest: Seq<u8>,
)
    ensures
        s5server_user_pw_negotiation_verification_result::decode_spec(verdict.wire() + rest)
            == Ok::<(s5server_user_pw_negotiation_verification_result, nat), Socks5Error>(
            (verdict, verdict.wire().len()),
        ),
{
    let buffer = verdict.wire() + rest;
    assert(buffer[0] == USER_PASSWORD_VERSION);
    assert(buffer[1] == verdict.status);
}

/// The frame of a verdict that decodes is exactly the bytes that were
/// consumed.
pub proof fn lemma_verification_result_reencode(buffer: Seq<u8>)
    requires
        s5server_user_pw_negotiation_verification_result::decode_spec(buffer) is Ok,
    ensures
        ({
            let (verdict, consumed) = s5server_user_pw_negotiation_verification_result::decode_spec(
                buffer,
            )->Ok_0;
            &&& consumed <= buffer.len()
            &&& verdict.wire() == buffer.subrange(0, consumed as int)
        }),
{
    let (verdict, consumed) = s5server_user_pw_negotiation_verification_result::decode_spec(
        buffer,
    )->Ok_0;
    assert(verdict.wire() =~= buffer.subrange(0, consumed as int));
}

} // verus!
