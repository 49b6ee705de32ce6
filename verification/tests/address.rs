use socks5_impl::address::{decode_address, decode_address_field, encode_address, Address};
use socks5_impl::codes::{Socks5Error, ATYP_DOMAIN_NAME, ATYP_IPV4, ATYP_IPV6};

fn domain_frame(name: &[u8]) -> Vec<u8> {
    let mut bytes = vec![name.len() as u8];
    bytes.extend_from_slice(name);
    bytes
}

#[test]
fn address_type_tags() {
    assert_eq!(Address::IPv4([1, 2, 3, 4]).atyp(), 0x01);
    assert_eq!(Address::DomainName(b"a".to_vec()).atyp(), 0x03);
    assert_eq!(Address::IPv6([0; 16]).atyp(), 0x04);
    assert_eq!(ATYP_IPV4, 0x01);
    assert_eq!(ATYP_DOMAIN_NAME, 0x03);
    assert_eq!(ATYP_IPV6, 0x04);
}

#[test]
fn encode_ipv4_is_the_four_octets() {
    assert_eq!(encode_address(&Address::IPv4([127, 0, 0, 1])), vec![127, 0, 0, 1]);
}

#[test]
fn encode_ipv6_is_the_sixteen_octets() {
    let octets: [u8; 16] = [0x20, 0x01, 0x0d, 0xb8, 0, 0, 0, 0, 0, 0, 0, 0, 0, 0, 0, 1];
    assert_eq!(encode_address(&Address::IPv6(octets)), octets.to_vec());
}

#[test]
fn encode_domain_name_is_length_then_name() {
    assert_eq!(
        encode_address(&Address::DomainName(b"test".to_vec())),
        vec![4, 0x74, 0x65, 0x73, 0x74]
    );
}

#[test]
fn address_round_trip_ipv4() {
    let address = Address::IPv4([192, 168, 1, 20]);
    let bytes = encode_address(&address);
    assert_eq!(decode_address(&bytes, address.atyp()), Ok((Address::IPv4([192, 168, 1, 20]), 4)));
}

#[test]
fn address_round_trip_ipv6() {
    let octets: [u8; 16] = [1, 2, 3, 4, 5, 6, 7, 8, 9, 10, 11, 12, 13, 14, 15, 16];
    let address = Address::IPv6(octets);
    let bytes = encode_address(&address);
    assert_eq!(decode_address(&bytes, address.atyp()), Ok((Address::IPv6(octets), 16)));
}

#[test]
fn address_round_trip_domain_name() {
    let address = Address::DomainName(b"example.org".to_vec());
    let bytes = encode_address(&address);
    assert_eq!(
        decode_address(&bytes, address.atyp()),
        Ok((Address::DomainName(b"example.org".to_vec()), 12))
    );
}

#[test]
fn address_round_trip_ignores_what_follows() {
    let mut bytes = encode_address(&Address::DomainName(b"ab".to_vec()));
    bytes.extend_from_slice(&[0x01, 0xBB, 0xFF]);
    assert_eq!(
        decode_address(&bytes, ATYP_DOMAIN_NAME),
        Ok((Address::DomainName(b"ab".to_vec()), 3))
    );
}

#[test]
fn decoded_address_reencodes_to_the_consumed_bytes() {
    let captured: Vec<u8> = vec![3, b'f', b'o', b'o', 0x00, 0x50];
    let (address, consumed) = decode_address(&captured, ATYP_DOMAIN_NAME).unwrap();
    assert_eq!(consumed, 4);
    assert_eq!(encode_address(&address), captured[..consumed].to_vec());
}

#[test]
fn domain_name_of_255_bytes_is_accepted() {
    let name = vec![b'x'; 255];
    let address = Address::DomainName(name.clone());
    assert!(address.is_valid());
    let bytes = encode_address(&address);
    assert_eq!(bytes.len(), 256);
    assert_eq!(bytes[0], 255);
    assert_eq!(decode_address(&bytes, ATYP_DOMAIN_NAME), Ok((Address::DomainName(name.clone()), 256)));
    assert_eq!(decode_address_field(&bytes, ATYP_DOMAIN_NAME), Ok((Address::DomainName(name), 256)));
}

#[test]
fn validity_of_domain_names() {
    assert!(!Address::DomainName(vec![]).is_valid());
    assert!(Address::DomainName(vec![b'a']).is_valid());
    assert!(Address::DomainName(vec![b'a'; 255]).is_valid());
    assert!(!Address::DomainName(vec![b'a'; 256]).is_valid());
    assert!(Address::IPv4([0; 4]).is_valid());
    assert!(Address::IPv6([0; 16]).is_valid());
}

#[test]
fn unspecified_address_is_all_zero_ipv4() {
    assert_eq!(Address::unspecified(), Address::IPv4([0, 0, 0, 0]));
}

#[test]
fn clone_keeps_the_address() {
    let address = Address::DomainName(b"host".to_vec());
    assert_eq!(address.clone(), address);
    assert_eq!(Address::IPv4([9, 8, 7, 6]).clone(), Address::IPv4([9, 8, 7, 6]));
}

#[test]
fn bare_address_unknown_type_is_malformed() {
    assert_eq!(decode_address(&[1, 2, 3, 4], 0x00), Err(Socks5Error::MalformedAddress));
    assert_eq!(decode_address(&[1, 2, 3, 4], 0x02), Err(Socks5Error::MalformedAddress));
    assert_eq!(decode_address(&[1, 2, 3, 4], 0x05), Err(Socks5Error::MalformedAddress));
}

#[test]
fn bare_address_short_buffer_is_malformed() {
    assert_eq!(decode_address(&[1, 2, 3], ATYP_IPV4), Err(Socks5Error::MalformedAddress));
    assert_eq!(decode_address(&[0; 15], ATYP_IPV6), Err(Socks5Error::MalformedAddress));
    assert_eq!(decode_address(&[], ATYP_DOMAIN_NAME), Err(Socks5Error::MalformedAddress));
    assert_eq!(decode_address(&[3, b'a', b'b'], ATYP_DOMAIN_NAME), Err(Socks5Error::MalformedAddress));
}

#[test]
fn bare_address_zero_length_domain_is_malformed() {
    assert_eq!(decode_address(&[0, b'a'], ATYP_DOMAIN_NAME), Err(Socks5Error::MalformedAddress));
}

#[test]
fn address_field_zero_length_domain_is_malformed_length() {
    assert_eq!(decode_address_field(&[0], ATYP_DOMAIN_NAME), Err(Socks5Error::MalformedLength));
    assert_eq!(
        decode_address_field(&[0, b'a', b'b'], ATYP_DOMAIN_NAME),
        Err(Socks5Error::MalformedLength)
    );
}

#[test]
fn address_field_one_byte_short_is_truncated() {
    assert_eq!(decode_address_field(&[10, 0, 0], ATYP_IPV4), Err(Socks5Error::TruncatedFrame));
    assert_eq!(decode_address_field(&[0; 15], ATYP_IPV6), Err(Socks5Error::TruncatedFrame));
    assert_eq!(
        decode_address_field(&domain_frame(b"test")[..4], ATYP_DOMAIN_NAME),
        Err(Socks5Error::TruncatedFrame)
    );
    assert_eq!(decode_address_field(&[], ATYP_DOMAIN_NAME), Err(Socks5Error::TruncatedFrame));
}

#[test]
fn address_field_unknown_type_is_malformed_address() {
    assert_eq!(decode_address_field(&[1, 2, 3, 4], 0x02), Err(Socks5Error::MalformedAddress));
    assert_eq!(decode_address_field(&[], 0x09), Err(Socks5Error::MalformedAddress));
}

#[test]
fn address_field_reads_what_a_bare_address_reads() {
    let bytes = domain_frame(b"test");
    assert_eq!(
        decode_address_field(&bytes, ATYP_DOMAIN_NAME),
        decode_address(&bytes, ATYP_DOMAIN_NAME)
    );
    assert_eq!(
        decode_address_field(&[8, 8, 4, 4, 0, 53], ATYP_IPV4),
        Ok((Address::IPv4([8, 8, 4, 4]), 4))
    );
}
