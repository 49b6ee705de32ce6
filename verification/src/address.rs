//! The address field shared by requests and replies: an IPv4 address, an
//! IPv6 address, or a domain name carried as opaque bytes.

use vstd::prelude::*;
use crate::bytes::{append, copy_range};
use crate::codes::{Socks5Error, ATYP_DOMAIN_NAME, ATYP_IPV4, ATYP_IPV6};

verus! {

/// A destination or bound address.
///
/// The two IP kinds have their byte length fixed by their type. A domain
/// name is valid when it holds 1 to 255 bytes; no other property of the
/// bytes is looked at.
#[derive(Debug, PartialEq, Eq)]
pub enum Address {
    IPv4([u8; 4]),
    IPv6([u8; 16]),
    DomainName(Vec<u8>),
}

/// The mathematical value of an [`Address`]: its kind and its bytes.
pub enum AddressModel {
    IPv4(Seq<u8>),
    IPv6(Seq<u8>),
    DomainName(Seq<u8>),
}

impl AddressModel {
    /// The byte counts that each kind admits.
    pub open spec fn wf(self) -> bool {
        match self {
            AddressModel::IPv4(octets) => octets.len() == 4,
            AddressModel::IPv6(octets) => octets.len() == 16,
            AddressModel::DomainName(name) => 1 <= name.len() <= 255,
        }
    }

    /// The address type tag that precedes the address in a frame.
    pub open spec fn atyp(self) -> u8 {
        match self {
            AddressModel::IPv4(_) => ATYP_IPV4,
            AddressModel::IPv6(_) => ATYP_IPV6,
            AddressModel::DomainName(_) => ATYP_DOMAIN_NAME,
        }
    }

    /// The address as it stands in a frame, without its type tag: the raw
    /// octets of an IP address, or a length byte followed by the name.
    pub open spec fn wire(self) -> Seq<u8> {
        match self {
            AddressModel::IPv4(octets) => octets,
            AddressModel::IPv6(octets) => octets,
            AddressModel::DomainName(name) => seq![name.len() as u8] + name,
        }
    }

    /// The all-zero IPv4 address `0.0.0.0`.
    pub open spec fn unspecified() -> AddressModel {
        AddressModel::IPv4(seq![0u8, 0u8, 0u8, 0u8])
    }
}

impl View for Address {
    type V = AddressModel;

    open spec fn view(&self) -> AddressModel {
        match *self {
            Address::IPv4(octets) => AddressModel::IPv4(octets@),
            Address::IPv6(octets) => AddressModel::IPv6(octets@),
            Address::DomainName(name) => AddressModel::DomainName(name@),
        }
    }
}

impl Clone for Address {
    fn clone(&self) -> (copy: Self)
        ensures
            copy@ == self@,
    {
        match self {
            Address::IPv4(octets) => Address::IPv4(*octets),
            Address::IPv6(octets) => Address::IPv6(*octets),
            Address::DomainName(name) => {
                let bytes = copy_range(name.as_slice(), 0, name.len());
                assert(bytes@ =~= name@);
                Address::DomainName(bytes)
            },
        }
    }
}

impl Address {
    /// The all-zero IPv4 address `0.0.0.0`, which a reply carries when the
    /// server has no separate relay endpoint to announce.
    pub fn unspecified() -> (address: Address)
        ensures
            address@ == AddressModel::unspecified(),
            address@.wf(),
    {
        let address = Address::IPv4([0, 0, 0, 0]);
        assert(address@->IPv4_0 =~= seq![0u8, 0u8, 0u8, 0u8]);
        address
    }

    /// Whether the address can be put on the wire.
    pub fn is_valid(&self) -> (valid: bool)
        ensures
            valid == self@.wf(),
    {
        match self {
            Address::IPv4(_) => true,
            Address::IPv6(_) => true,
            Address::DomainName(name) => 1 <= name.len() && name.len() <= 255,
        }
    }

    /// The address type tag that precedes the address in a frame.
    pub fn atyp(&self) -> (tag: u8)
        ensures
            tag == self@.atyp(),
    {
        match self {
            Address::IPv4(_) => ATYP_IPV4,
            Address::IPv6(_) => ATYP_IPV6,
            Address::DomainName(_) => ATYP_DOMAIN_NAME,
        }
    }
}

/// What decoding a bare address from `buffer` gives, for the address type
/// `atyp`: the address and the number of bytes it occupies, or
/// `MalformedAddress` when the type is unknown, the buffer is shorter than
/// the address, or a domain name declares a length of zero.
pub open spec fn decode_address_spec(buffer: Seq<u8>, atyp: u8) -> Result<
    (AddressModel, nat),
    Socks5Error,
> {
    if atyp == ATYP_IPV4 && buffer.len() >= 4 {
        Ok((AddressModel::IPv4(buffer.subrange(0, 4)), 4nat))
    } else if atyp == ATYP_IPV6 && buffer.len() >= 16 {
        Ok((AddressModel::IPv6(buffer.subrange(0, 16)), 16nat))
    } else if atyp == ATYP_DOMAIN_NAME && buffer.len() >= 1 && buffer[0] != 0 && buffer.len() >= 1
        + buffer[0] {
        Ok((AddressModel::DomainName(buffer.subrange(1, 1 + buffer[0])), (1 + buffer[0]) as nat))
    } else {
        Err(Socks5Error::MalformedAddress)
    }
}

/// The number of bytes that an address of a known type occupies, given the
/// first of them (which only a domain name reads: it is the name's length).
pub open spec fn address_wire_len(atyp: u8, first: u8) -> nat {
    if atyp == ATYP_IPV4 {
        4
    } else if atyp == ATYP_IPV6 {
        16
    } else {
        (1 + first) as nat
    }
}

/// What reading the address field of a frame gives, where `buffer` starts at
/// the field and `atyp` is the tag read just before it. Unlike a bare
/// address, the field tells its failures apart: an unknown tag is
/// `MalformedAddress`, a domain name that declares no bytes is
/// `MalformedLength`, and a buffer that ends before the address does is
/// `TruncatedFrame`.
pub open spec fn address_field_spec(buffer: Seq<u8>, atyp: u8) -> Result<
    (AddressModel, nat),
    Socks5Error,
> {
    if atyp != ATYP_IPV4 && atyp != ATYP_IPV6 && atyp != ATYP_DOMAIN_NAME {
        Err(Socks5Error::MalformedAddress)
    } else if atyp == ATYP_DOMAIN_NAME && buffer.len() < 1 {
        Err(Socks5Error::TruncatedFrame)
    } else if atyp == ATYP_DOMAIN_NAME && buffer[0] == 0 {
        Err(Socks5Error::MalformedLength)
    } else if buffer.len() < address_wire_len(atyp, buffer[0]) {
        Err(Socks5Error::TruncatedFrame)
    } else {
        decode_address_spec(buffer, atyp)
    }
}

/// Writes a valid address as it stands in a frame, without its type tag.
/// Decoding what was written, as the address's own type, gives the address
/// back.
pub fn encode_address(address: &Address) -> (bytes: Vec<u8>)
    requires
        address@.wf(),
    ensures
        bytes@ == address@.wire(),
        decode_address_spec(bytes@, address@.atyp()) == Ok::<(AddressModel, nat), Socks5Error>(
            (address@, bytes@.len()),
        ),
{
    let mut bytes: Vec<u8> = Vec::new();
    match address {
        Address::IPv4(octets) => {
            append(&mut bytes, octets.as_slice());
        },
        Address::IPv6(octets) => {
            append(&mut bytes, octets.as_slice());
        },
        Address::DomainName(name) => {
            bytes.push(name.len() as u8);
            append(&mut bytes, name.as_slice());
        },
    }
    assert(bytes@ =~= address@.wire());
    proof {
        lemma_address_round_trip(address@, Seq::empty());
        assert(bytes@ + Seq::<u8>::empty() =~= bytes@);
    }
    bytes
}

/// Reads a bare address of type `atyp` from the front of `buffer` and says
/// how many bytes it took. Bytes behind the address are not looked at, and
/// the address read encodes to exactly the bytes taken.
pub fn decode_address(buffer: &[u8], atyp: u8) -> (result: Result<(Address, usize), Socks5Error>)
    ensures
        match result {
            Ok((address, consumed)) => decode_address_spec(buffer@, atyp) == Ok::<
                (AddressModel, nat),
                Socks5Error,
            >((address@, consumed as nat)),
            Err(error) => decode_address_spec(buffer@, atyp) == Err::<
                (AddressModel, nat),
                Socks5Error,
            >(error),
        },
        result matches Ok((address, consumed)) ==> {
            &&& address@.wf()
            &&& address@.atyp() == atyp
            &&& consumed <= buffer@.len()
            &&& address@.wire() == buffer@.subrange(0, consumed as int)
        },
{
    proof {
        if decode_address_spec(buffer@, atyp) is Ok {
            lemma_address_reencode(buffer@, atyp);
        }
    }
    if atyp == ATYP_IPV4 && buffer.len() >= 4 {
        let octets: [u8; 4] = [buffer[0], buffer[1], buffer[2], buffer[3]];
        assert(octets@ =~= buffer@.subrange(0, 4));
        Ok((Address::IPv4(octets), 4))
    } else if atyp == ATYP_IPV6 && buffer.len() >= 16 {
        let octets: [u8; 16] = [
            buffer[0],
            buffer[1],
            buffer[2],
            buffer[3],
            buffer[4],
            buffer[5],
            buffer[6],
            buffer[7],
            buffer[8],
            buffer[9],
            buffer[10],
            buffer[11],
            buffer[12],
            buffer[13],
            buffer[14],
            buffer[15],
        ];
        assert(octets@ =~= buffer@.subrange(0, 16));
        Ok((Address::IPv6(octets), 16))
    } else if atyp == ATYP_DOMAIN_NAME && buffer.len() >= 1 && buffer[0] != 0 && buffer.len() - 1
        >= buffer[0] as usize {
        let end: usize = 1 + buffer[0] as usize;
        let name = copy_range(buffer, 1, end);
        Ok((Address::DomainName(name), end))
    } else {
        Err(Socks5Error::MalformedAddress)
    }
}

/// Reads the address field of a frame from the front of `buffer`, for the
/// address type `atyp`, and says how many bytes it took.
pub fn decode_address_field(buffer: &[u8], atyp: u8) -> (result: Result<
    (Address, usize),
    Socks5Error,
>)
    ensures
        match result {
            Ok((address, consumed)) => address_field_spec(buffer@, atyp) == Ok::<
                (AddressModel, nat),
                Socks5Error,
            >((address@, consumed as nat)),
            Err(error) => address_field_spec(buffer@, atyp) == Err::<
                (AddressModel, nat),
                Socks5Error,
            >(error),
        },
        result matches Ok((address, consumed)) ==> {
            &&& address@.wf()
            &&& address@.atyp() == atyp
            &&& consumed <= buffer@.len()
            &&& address@.wire() == buffer@.subrange(0, consumed as int)
        },
{
    if atyp != ATYP_IPV4 && atyp != ATYP_IPV6 && atyp != ATYP_DOMAIN_NAME {
        return Err(Socks5Error::MalformedAddress);
    }
    let needed: usize = if atyp == ATYP_IPV4 {
        4
    } else if atyp == ATYP_IPV6 {
        16
    } else {
        if buffer.len() < 1 {
            return Err(Socks5Error::TruncatedFrame);
        }
        if buffer[0] == 0 {
            return Err(Socks5Error::MalformedLength);
        }
        1 + buffer[0] as usize
    };
    if buffer.len() < needed {
        return Err(Socks5Error::TruncatedFrame);
    }
    decode_address(buffer, atyp)
}

/// Decoding the encoding of a valid address gives that address back and
/// consumes exactly the encoding, whatever bytes follow it.
pub proof fn lemma_address_round_trip(address: AddressModel, rest: Seq<u8>)
    requires
        address.wf(),
    ensures
        decode_address_spec(address.wire() + rest, address.atyp()) == Ok::<
            (AddressModel, nat),
            Socks5Error,
        >((address, address.wire().len())),
{
    let buffer = address.wire() + rest;
    match address {
        AddressModel::IPv4(octets) => {
            assert(buffer.subrange(0, 4) =~= octets);
        },
        AddressModel::IPv6(octets) => {
            assert(buffer.subrange(0, 16) =~= octets);
        },
        AddressModel::DomainName(name) => {
            assert(buffer[0] == name.len() as u8);
            assert(buffer.subrange(1, 1 + buffer[0]) =~= name);
        },
    }
}

/// Whatever decodes is valid, has the type it was decoded as, and encodes to
/// exactly the bytes that were consumed.
pub proof fn lemma_address_reencode(buffer: Seq<u8>, atyp: u8)
    requires
        decode_address_spec(buffer, atyp) is Ok,
    ensures
        ({
            let (address, consumed) = decode_address_spec(buffer, atyp)->Ok_0;
            &&& address.wf()
            &&& address.atyp() == atyp
            &&& consumed <= buffer.len()
            &&& address.wire() == buffer.subrange(0, consumed as int)
        }),
{
    let (address, consumed) = decode_address_spec(buffer, atyp)->Ok_0;
    assert(address.wire() =~= buffer.subrange(0, consumed as int));
}

/// Where an address field is read, a bare address is read too and the two
/// agree; and the field of a valid address, written out, is read back
/// whatever bytes follow it.
pub proof fn lemma_address_field(buffer: Seq<u8>, atyp: u8, address: AddressModel, rest: Seq<u8>)
    ensures
        address_field_spec(buffer, atyp) is Ok ==> address_field_spec(buffer, atyp)
            == decode_address_spec(buffer, atyp),
        address.wf() ==> address_field_spec(address.wire() + rest, address.atyp()) == Ok::<
            (AddressModel, nat),
            Socks5Error,
        >((address, address.wire().len())),
{
    if address.wf() {
        lemma_address_round_trip(address, rest);
        let written = address.wire() + rest;
        assert(written[0] == address.wire()[0]);
    }
}

} // verus!
