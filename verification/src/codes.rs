//! Protocol constants and the closed enumerations of the wire format.

use vstd::prelude::*;

verus! {

/// Method byte the server sends when none of the offered methods is acceptable.
pub const SERVER_NO_ACCEPTABLE_METHOD: u8 = 0xFF;

/// Port a SOCKS5 server listens on by default (1080).
pub const SERVER_DEFAULT_LISTEN_PORT: u16 = 0x438;

/// Version byte of every SOCKS5 frame.
pub const SOCKS5_VERSION: u8 = 0x05;

/// Version byte of the username/password sub-negotiation.
pub const USER_PASSWORD_VERSION: u8 = 0x01;

/// Status byte of a successful username/password verification.
pub const AUTH_STATUS_SUCCESS: u8 = 0x00;

/// Status byte this server sends when verification fails.
pub const AUTH_STATUS_FAILURE: u8 = 0x01;

/// Value of the reserved byte in requests and replies.
pub const RESERVED: u8 = 0x00;

/// Address type tag of a 4-byte IPv4 address.
pub const ATYP_IPV4: u8 = 0x01;

/// Address type tag of a length-prefixed domain name.
pub const ATYP_DOMAIN_NAME: u8 = 0x03;

/// Address type tag of a 16-byte IPv6 address.
pub const ATYP_IPV6: u8 = 0x04;

/// Authentication methods this server can negotiate.
///
/// GSSAPI (`0x01`) and the private range (`0x80` to `0xFE`) are legal bytes in
/// a greeting but have no variant here, so they can never be selected.
#[derive(Debug, Clone, Copy, PartialEq, Eq, Structural)]
pub enum AuthMethod {
    NoAuth,
    UserPassword,
}

impl AuthMethod {
    /// The method's code on the wire.
    pub open spec fn code(self) -> u8 {
        match self {
            AuthMethod::NoAuth => 0x00,
            AuthMethod::UserPassword => 0x02,
        }
    }

    /// The method that a wire code stands for, if this server knows it.
    pub open spec fn of_code(byte: u8) -> Option<AuthMethod> {
        if byte == 0x00 {
            Some(AuthMethod::NoAuth)
        } else if byte == 0x02 {
            Some(AuthMethod::UserPassword)
        } else {
            None
        }
    }

    pub fn to_byte(&self) -> (byte: u8)
        ensures
            byte == self.code(),
    {
        match self {
            AuthMethod::NoAuth => 0x00,
            AuthMethod::UserPassword => 0x02,
        }
    }

    pub fn from_byte(byte: u8) -> (method: Option<Self>)
        ensures
            method == Self::of_code(byte),
    {
        match byte {
            0x00 => Some(AuthMethod::NoAuth),
            0x02 => Some(AuthMethod::UserPassword),
            _ => None,
        }
    }

    /// Converting a method to its code and back gives the method again, and
    /// a code that stands for a method is that method's code.
    pub proof fn lemma_code_round_trip(method: AuthMethod, byte: u8)
        ensures
            Self::of_code(method.code()) == Some(method),
            Self::of_code(byte) matches Some(m) ==> m.code() == byte,
    {
    }
}

/// What the client asks the server to do.
#[derive(Debug, Clone, Copy, PartialEq, Eq, Structural)]
pub enum Command {
    Connect,
    Bind,
    UdpAssociate,
}

impl Command {
    /// The command's code on the wire.
    pub open spec fn code(self) -> u8 {
        match self {
            Command::Connect => 0x01,
            Command::Bind => 0x02,
            Command::UdpAssociate => 0x03,
        }
    }

    /// The command that a wire code stands for; `None` for every other byte.
    pub open spec fn of_code(byte: u8) -> Option<Command> {
        if byte == 0x01 {
            Some(Command::Connect)
        } else if byte == 0x02 {
            Some(Command::Bind)
        } else if byte == 0x03 {
            Some(Command::UdpAssociate)
        } else {
            None
        }
    }

    pub fn to_byte(&self) -> (byte: u8)
        ensures
            byte == self.code(),
    {
        match self {
            Command::Connect => 0x01,
            Command::Bind => 0x02,
            Command::UdpAssociate => 0x03,
        }
    }

    pub fn from_byte(byte: u8) -> (command: Option<Self>)
        ensures
            command == Self::of_code(byte),
    {
        match byte {
            0x01 => Some(Command::Connect),
            0x02 => Some(Command::Bind),
            0x03 => Some(Command::UdpAssociate),
            _ => None,
        }
    }

    /// Converting a command to its code and back gives the command again, and
    /// a code that stands for a command is that command's code.
    pub proof fn lemma_code_round_trip(command: Command, byte: u8)
        ensures
            Self::of_code(command.code()) == Some(command),
            Self::of_code(byte) matches Some(c) ==> c.code() == byte,
    {
    }
}

/// Outcome that the server reports in its reply to a request.
#[derive(Debug, Clone, Copy, PartialEq, Eq, Structural)]
pub enum ReplyCode {
    Succeeded,
    GeneralFailure,
    NotAllowed,
    NetworkUnreachable,
    HostUnreachable,
    ConnectionRefused,
    TtlExpired,
    CommandNotSupported,
    AddressTypeNotSupported,
}

impl ReplyCode {
    /// The reply's code on the wire, `0x00` to `0x08`.
    pub open spec fn code(self) -> u8 {
        match self {
            ReplyCode::Succeeded => 0x00,
            ReplyCode::GeneralFailure => 0x01,
            ReplyCode::NotAllowed => 0x02,
            ReplyCode::NetworkUnreachable => 0x03,
            ReplyCode::HostUnreachable => 0x04,
            ReplyCode::ConnectionRefused => 0x05,
            ReplyCode::TtlExpired => 0x06,
            ReplyCode::CommandNotSupported => 0x07,
            ReplyCode::AddressTypeNotSupported => 0x08,
        }
    }

    /// The reply that a wire code stands for; `None` from `0x09` upwards.
    pub open spec fn of_code(byte: u8) -> Option<ReplyCode> {
        if byte == 0x00 {
            Some(ReplyCode::Succeeded)
        } else if byte == 0x01 {
            Some(ReplyCode::GeneralFailure)
        } else if byte == 0x02 {
            Some(ReplyCode::NotAllowed)
        } else if byte == 0x03 {
            Some(ReplyCode::NetworkUnreachable)
        } else if byte == 0x04 {
            Some(ReplyCode::HostUnreachable)
        } else if byte == 0x05 {
            Some(ReplyCode::ConnectionRefused)
        } else if byte == 0x06 {
            Some(ReplyCode::TtlExpired)
        } else if byte == 0x07 {
            Some(ReplyCode::CommandNotSupported)
        } else if byte == 0x08 {
            Some(ReplyCode::AddressTypeNotSupported)
        } else {
            None
        }
    }

    pub fn to_byte(&self) -> (byte: u8)
        ensures
            byte == self.code(),
    {
        match self {
            ReplyCode::Succeeded => 0x00,
            ReplyCode::GeneralFailure => 0x01,
            ReplyCode::NotAllowed => 0x02,
            ReplyCode::NetworkUnreachable => 0x03,
            ReplyCode::HostUnreachable => 0x04,
            ReplyCode::ConnectionRefused => 0x05,
            ReplyCode::TtlExpired => 0x06,
            ReplyCode::CommandNotSupported => 0x07,
            ReplyCode::AddressTypeNotSupported => 0x08,
        }
    }

    pub fn from_byte(byte: u8) -> (reply: Option<Self>)
        ensures
            reply == Self::of_code(byte),
    {
        match byte {
            0x00 => Some(ReplyCode::Succeeded),
            0x01 => Some(ReplyCode::GeneralFailure),
            0x02 => Some(ReplyCode::NotAllowed),
            0x03 => Some(ReplyCode::NetworkUnreachable),
            0x04 => Some(ReplyCode::HostUnreachable),
            0x05 => Some(ReplyCode::ConnectionRefused),
            0x06 => Some(ReplyCode::TtlExpired),
            0x07 => Some(ReplyCode::CommandNotSupported),
            0x08 => Some(ReplyCode::AddressTypeNotSupported),
            _ => None,
        }
    }

    /// Converting a reply to its code and back gives the reply again, and a
    /// code that stands for a reply is that reply's code.
    pub proof fn lemma_code_round_trip(reply: ReplyCode, byte: u8)
        ensures
            Self::of_code(reply.code()) == Some(reply),
            Self::of_code(byte) matches Some(r) ==> r.code() == byte,
    {
    }
}

/// Why a frame was refused or a handshake ended without a relay.
#[derive(Debug, Clone, Copy, PartialEq, Eq, Structural)]
pub enum Socks5Error {
    /// The version byte is not the one the frame's protocol fixes, or another
    /// byte that the protocol version fixes (the reserved byte, the set of
    /// reply codes) holds a value that version does not define.
    UnsupportedVersion,
    /// The address type is unknown, or a bare address cannot be read from
    /// its buffer.
    MalformedAddress,
    /// A length prefix is zero where at least one byte must follow.
    MalformedLength,
    /// The bytes end before the frame does.
    TruncatedFrame,
    /// The command byte is unknown, or the server's policy excludes the command.
    UnsupportedCommand,
    /// The client offered no method that the server supports.
    NoAcceptableMethod,
    /// The authenticator turned the credentials down.
    AuthenticationFailed,
    /// The command executor answered with a reply code other than success.
    ExecutionFailed(ReplyCode),
}

} // verus!
