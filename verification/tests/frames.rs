use socks5_impl::address::Address;
use socks5_impl::auth::{
    s5client_upw_auth_request, s5server_user_pw_negotiation_verification_result,
};
use socks5_impl::codes::{AuthMethod, Command, ReplyCode, Socks5Error};
use socks5_impl::greeting::{s5client_netotiation_request, s5server_negotiation_resp};
use socks5_impl::request::{s5client_2dest_request, s5server_reply};

// greeting request

#[test]
fn greeting_encode() {
    let greeting = s5client_netotiation_request { methods: vec![0x00, 0x01, 0x02] };
    assert_eq!(greeting.encode(), vec![0x05, 0x03, 0x00, 0x01, 0x02]);
}

#[test]
fn greeting_default_offers_no_auth_and_user_password() {
    let greeting = s5client_netotiation_request::default();
    assert_eq!(greeting.methods, vec![0x00, 0x02]);
    assert!(greeting.is_valid());
    assert_eq!(greeting.encode(), vec![0x05, 0x02, 0x00, 0x02]);
}

#[test]
fn greeting_decode() {
    assert_eq!(
        s5client_netotiation_request::decode(&[0x05, 0x01, 0x00]),
        Ok((s5client_netotiation_request { methods: vec![0x00] }, 3))
    );
}

#[test]
fn greeting_decode_keeps_order_and_duplicates() {
    assert_eq!(
        s5client_netotiation_request::decode(&[0x05, 0x04, 0x02, 0x00, 0x02, 0x80]),
        Ok((s5client_netotiation_request { methods: vec![0x02, 0x00, 0x02, 0x80] }, 6))
    );
}

#[test]
fn greeting_decode_stops_at_the_end_of_the_frame() {
    assert_eq!(
        s5client_netotiation_request::decode(&[0x05, 0x01, 0x02, 0x05, 0x01, 0x00]),
        Ok((s5client_netotiation_request { methods: vec![0x02] }, 3))
    );
}

#[test]
fn greeting_round_trip() {
    let methods: Vec<u8> = (0u8..255).collect();
    let greeting = s5client_netotiation_request { methods: methods.clone() };
    let bytes = greeting.encode();
    assert_eq!(bytes.len(), 257);
    assert_eq!(
        s5client_netotiation_request::decode(&bytes),
        Ok((s5client_netotiation_request { methods }, 257))
    );
}

#[test]
fn greeting_reencode_reproduces_the_frame() {
    let captured: Vec<u8> = vec![0x05, 0x02, 0x00, 0x02];
    let (greeting, consumed) = s5client_netotiation_request::decode(&captured).unwrap();
    assert_eq!(consumed, captured.len());
    assert_eq!(greeting.encode(), captured);
}

#[test]
fn greeting_validity() {
    assert!(!s5client_netotiation_request { methods: vec![] }.is_valid());
    assert!(s5client_netotiation_request { methods: vec![0; 255] }.is_valid());
    assert!(!s5client_netotiation_request { methods: vec![0; 256] }.is_valid());
}

#[test]
fn greeting_decode_errors() {
    assert_eq!(s5client_netotiation_request::decode(&[]), Err(Socks5Error::TruncatedFrame));
    assert_eq!(s5client_netotiation_request::decode(&[0x04]), Err(Socks5Error::UnsupportedVersion));
    assert_eq!(
        s5client_netotiation_request::decode(&[0x04, 0x01, 0x00]),
        Err(Socks5Error::UnsupportedVersion)
    );
    assert_eq!(s5client_netotiation_request::decode(&[0x05]), Err(Socks5Error::TruncatedFrame));
    assert_eq!(
        s5client_netotiation_request::decode(&[0x05, 0x00]),
        Err(Socks5Error::MalformedLength)
    );
    assert_eq!(
        s5client_netotiation_request::decode(&[0x05, 0x02, 0x00]),
        Err(Socks5Error::TruncatedFrame)
    );
}

// greeting response

#[test]
fn negotiation_resp_new_and_to_bytes() {
    assert_eq!(s5server_negotiation_resp::new(AuthMethod::NoAuth).to_bytes(), [0x05, 0x00]);
    assert_eq!(s5server_negotiation_resp::new(AuthMethod::UserPassword).to_bytes(), [0x05, 0x02]);
}

#[test]
fn negotiation_resp_none_acceptable() {
    assert_eq!(s5server_negotiation_resp::none_acceptable().to_bytes(), [0x05, 0xFF]);
}

#[test]
fn negotiation_resp_decode() {
    assert_eq!(
        s5server_negotiation_resp::decode(&[0x05, 0x02, 0x99]),
        Ok((s5server_negotiation_resp { method: 0x02 }, 2))
    );
    assert_eq!(s5server_negotiation_resp::decode(&[]), Err(Socks5Error::TruncatedFrame));
    assert_eq!(s5server_negotiation_resp::decode(&[0x05]), Err(Socks5Error::TruncatedFrame));
    assert_eq!(
        s5server_negotiation_resp::decode(&[0x01, 0x00]),
        Err(Socks5Error::UnsupportedVersion)
    );
}

#[test]
fn negotiation_resp_round_trip() {
    for method in [0x00u8, 0x02, 0xFF] {
        let response = s5server_negotiation_resp { method };
        assert_eq!(s5server_negotiation_resp::decode(&response.to_bytes()), Ok((response, 2)));
    }
}

// credentials

#[test]
fn credentials_encode() {
    let credentials =
        s5client_upw_auth_request { uname: b"user".to_vec(), passwd: b"pw".to_vec() };
    assert_eq!(
        credentials.encode(),
        vec![0x01, 0x04, b'u', b's', b'e', b'r', 0x02, b'p', b'w']
    );
}

#[test]
fn credentials_decode() {
    assert_eq!(
        s5client_upw_auth_request::decode(&[0x01, 0x01, b'a', 0x03, b'x', b'y', b'z', 0x05]),
        Ok((s5client_upw_auth_request { uname: b"a".to_vec(), passwd: b"xyz".to_vec() }, 7))
    );
}

#[test]
fn credentials_round_trip_at_the_longest() {
    let uname = vec![b'u'; 255];
    let passwd = vec![b'p'; 255];
    let credentials = s5client_upw_auth_request { uname: uname.clone(), passwd: passwd.clone() };
    assert!(credentials.is_valid());
    let bytes = credentials.encode();
    assert_eq!(bytes.len(), 513);
    assert_eq!(
        s5client_upw_auth_request::decode(&bytes),
        Ok((s5client_upw_auth_request { uname, passwd }, 513))
    );
}

#[test]
fn credentials_reencode_reproduces_the_frame() {
    let captured: Vec<u8> = vec![0x01, 0x02, b'i', b'd', 0x01, b'k'];
    let (credentials, consumed) = s5client_upw_auth_request::decode(&captured).unwrap();
    assert_eq!(consumed, captured.len());
    assert_eq!(credentials.encode(), captured);
}

#[test]
fn credentials_validity() {
    let part = |n: usize| vec![b'a'; n];
    assert!(s5client_upw_auth_request { uname: part(1), passwd: part(1) }.is_valid());
    assert!(!s5client_upw_auth_request { uname: part(0), passwd: part(1) }.is_valid());
    assert!(!s5client_upw_auth_request { uname: part(1), passwd: part(0) }.is_valid());
    assert!(!s5client_upw_auth_request { uname: part(256), passwd: part(1) }.is_valid());
    assert!(!s5client_upw_auth_request { uname: part(1), passwd: part(256) }.is_valid());
}

#[test]
fn credentials_decode_errors() {
    assert_eq!(s5client_upw_auth_request::decode(&[]), Err(Socks5Error::TruncatedFrame));
    assert_eq!(
        s5client_upw_auth_request::decode(&[0x05, 0x01, b'a', 0x01, b'b']),
        Err(Socks5Error::UnsupportedVersion)
    );
    assert_eq!(s5client_upw_auth_request::decode(&[0x01]), Err(Socks5Error::TruncatedFrame));
    assert_eq!(
        s5client_upw_auth_request::decode(&[0x01, 0x00, 0x01, b'b']),
        Err(Socks5Error::MalformedLength)
    );
    assert_eq!(
        s5client_upw_auth_request::decode(&[0x01, 0x02, b'a']),
        Err(Socks5Error::TruncatedFrame)
    );
    assert_eq!(
        s5client_upw_auth_request::decode(&[0x01, 0x01, b'a']),
        Err(Socks5Error::TruncatedFrame)
    );
    assert_eq!(
        s5client_upw_auth_request::decode(&[0x01, 0x01, b'a', 0x00]),
        Err(Socks5Error::MalformedLength)
    );
    assert_eq!(
        s5client_upw_auth_request::decode(&[0x01, 0x01, b'a', 0x02, b'b']),
        Err(Socks5Error::TruncatedFrame)
    );
}

// verification result

#[test]
fn verification_result_new_and_to_bytes() {
    let accepted = s5server_user_pw_negotiation_verification_result::new(true);
    let refused = s5server_user_pw_negotiation_verification_result::new(false);
    assert_eq!(accepted.to_bytes(), [0x01, 0x00]);
    assert_eq!(refused.to_bytes(), [0x01, 0x01]);
    assert!(accepted.is_success());
    assert!(!refused.is_success());
}

#[test]
fn verification_result_any_nonzero_status_is_failure() {
    for status in 1u8..=255 {
        assert!(!s5server_user_pw_negotiation_verification_result { status }.is_success());
    }
}

#[test]
fn verification_result_decode() {
    assert_eq!(
        s5server_user_pw_negotiation_verification_result::decode(&[0x01, 0x00]),
        Ok((s5server_user_pw_negotiation_verification_result { status: 0 }, 2))
    );
    assert_eq!(
        s5server_user_pw_negotiation_verification_result::decode(&[0x01, 0x7F, 0x00]),
        Ok((s5server_user_pw_negotiation_verification_result { status: 0x7F }, 2))
    );
    assert_eq!(
        s5server_user_pw_negotiation_verification_result::decode(&[0x05, 0x00]),
        Err(Socks5Error::UnsupportedVersion)
    );
    assert_eq!(
        s5server_user_pw_negotiation_verification_result::decode(&[0x01]),
        Err(Socks5Error::TruncatedFrame)
    );
    assert_eq!(
        s5server_user_pw_negotiation_verification_result::decode(&[]),
        Err(Socks5Error::TruncatedFrame)
    );
}

// request

#[test]
fn request_decode_connect_ipv4() {
    let frame = [0x05, 0x01, 0x00, 0x01, 0x7F, 0x00, 0x00, 0x01, 0x1F, 0x90];
    assert_eq!(
        s5client_2dest_request::decode(&frame),
        Ok((
            s5client_2dest_request {
                cmd: Command::Connect,
                dst_addr: Address::IPv4([127, 0, 0, 1]),
                dst_port: 8080,
            },
            10
        ))
    );
}

#[test]
fn request_decode_connect_domain_name() {
    let frame = [0x05, 0x01, 0x00, 0x03, 0x04, 0x74, 0x65, 0x73, 0x74, 0x01, 0xBB];
    assert_eq!(
        s5client_2dest_request::decode(&frame),
        Ok((
            s5client_2dest_request {
                cmd: Command::Connect,
                dst_addr: Address::DomainName(b"test".to_vec()),
                dst_port: 443,
            },
            11
        ))
    );
}

#[test]
fn request_decode_bind_ipv6() {
    let mut frame = vec![0x05, 0x02, 0x00, 0x04];
    let octets: [u8; 16] = [0xFE, 0x80, 0, 0, 0, 0, 0, 0, 0, 0, 0, 0, 0, 0, 0, 0x01];
    frame.extend_from_slice(&octets);
    frame.extend_from_slice(&[0xFF, 0xFF]);
    assert_eq!(
        s5client_2dest_request::decode(&frame),
        Ok((
            s5client_2dest_request {
                cmd: Command::Bind,
                dst_addr: Address::IPv6(octets),
                dst_port: 65535,
            },
            22
        ))
    );
}

#[test]
fn request_encode() {
    let request = s5client_2dest_request {
        cmd: Command::UdpAssociate,
        dst_addr: Address::DomainName(b"ab".to_vec()),
        dst_port: 0x1234,
    };
    assert_eq!(request.encode(), vec![0x05, 0x03, 0x00, 0x03, 0x02, b'a', b'b', 0x12, 0x34]);
}

#[test]
fn request_round_trip() {
    let request = s5client_2dest_request {
        cmd: Command::Connect,
        dst_addr: Address::DomainName(vec![b'd'; 255]),
        dst_port: 1,
    };
    assert!(request.is_valid());
    let mut bytes = request.encode();
    assert_eq!(bytes.len(), 262);
    bytes.push(0xAA);
    assert_eq!(s5client_2dest_request::decode(&bytes), Ok((request, 262)));
}

#[test]
fn request_reencode_reproduces_the_frame() {
    let captured: Vec<u8> = vec![0x05, 0x01, 0x00, 0x03, 0x04, 0x74, 0x65, 0x73, 0x74, 0x01, 0xBB];
    let (request, consumed) = s5client_2dest_request::decode(&captured).unwrap();
    assert_eq!(consumed, captured.len());
    assert_eq!(request.encode(), captured);
}

#[test]
fn request_clone_keeps_the_request() {
    let request = s5client_2dest_request {
        cmd: Command::Bind,
        dst_addr: Address::DomainName(b"host".to_vec()),
        dst_port: 99,
    };
    assert_eq!(request.clone(), request);
}

#[test]
fn request_decode_errors() {
    assert_eq!(s5client_2dest_request::decode(&[]), Err(Socks5Error::TruncatedFrame));
    assert_eq!(s5client_2dest_request::decode(&[0x04]), Err(Socks5Error::UnsupportedVersion));
    assert_eq!(
        s5client_2dest_request::decode(&[0x05, 0x01, 0x00]),
        Err(Socks5Error::TruncatedFrame)
    );
    assert_eq!(
        s5client_2dest_request::decode(&[0x05, 0x04, 0x00, 0x01, 1, 2, 3, 4, 0, 80]),
        Err(Socks5Error::UnsupportedCommand)
    );
    assert_eq!(
        s5client_2dest_request::decode(&[0x05, 0x00, 0x00, 0x01, 1, 2, 3, 4, 0, 80]),
        Err(Socks5Error::UnsupportedCommand)
    );
    assert_eq!(
        s5client_2dest_request::decode(&[0x05, 0x01, 0x01, 0x01, 1, 2, 3, 4, 0, 80]),
        Err(Socks5Error::UnsupportedVersion)
    );
    assert_eq!(
        s5client_2dest_request::decode(&[0x05, 0x01, 0x00, 0x02, 1, 2, 3, 4, 0, 80]),
        Err(Socks5Error::MalformedAddress)
    );
}

#[test]
fn request_domain_name_of_length_zero_is_malformed_length() {
    assert_eq!(
        s5client_2dest_request::decode(&[0x05, 0x01, 0x00, 0x03, 0x00, 0x01, 0xBB]),
        Err(Socks5Error::MalformedLength)
    );
}

#[test]
fn request_one_byte_short_is_truncated() {
    let ipv4 = [0x05, 0x01, 0x00, 0x01, 0x7F, 0x00, 0x00, 0x01, 0x1F, 0x90];
    let domain = [0x05, 0x01, 0x00, 0x03, 0x04, 0x74, 0x65, 0x73, 0x74, 0x01, 0xBB];
    for cut in 1..ipv4.len() {
        assert_eq!(s5client_2dest_request::decode(&ipv4[..cut]), Err(Socks5Error::TruncatedFrame));
    }
    for cut in 1..domain.len() {
        assert_eq!(
            s5client_2dest_request::decode(&domain[..cut]),
            Err(Socks5Error::TruncatedFrame)
        );
    }
    // the address alone is one byte short of what its type requires
    assert_eq!(
        s5client_2dest_request::decode(&[0x05, 0x01, 0x00, 0x01, 0x7F, 0x00, 0x00]),
        Err(Socks5Error::TruncatedFrame)
    );
}

// reply

#[test]
fn reply_encode_success_with_zero_endpoint() {
    assert_eq!(
        s5server_reply::unbound(ReplyCode::Succeeded).encode(),
        vec![0x05, 0x00, 0x00, 0x01, 0x00, 0x00, 0x00, 0x00, 0x00, 0x00]
    );
}

#[test]
fn reply_encode_host_unreachable() {
    assert_eq!(
        s5server_reply::unbound(ReplyCode::HostUnreachable).encode(),
        vec![0x05, 0x04, 0x00, 0x01, 0x00, 0x00, 0x00, 0x00, 0x00, 0x00]
    );
}

#[test]
fn reply_encode_with_bound_endpoint() {
    let reply = s5server_reply {
        rep: ReplyCode::Succeeded,
        bnd_addr: Address::IPv4([10, 0, 0, 7]),
        bnd_port: 1080,
    };
    assert!(reply.is_valid());
    assert_eq!(reply.encode(), vec![0x05, 0x00, 0x00, 0x01, 10, 0, 0, 7, 0x04, 0x38]);
}

#[test]
fn reply_round_trip() {
    let reply = s5server_reply {
        rep: ReplyCode::ConnectionRefused,
        bnd_addr: Address::DomainName(b"relay.example".to_vec()),
        bnd_port: 4096,
    };
    let bytes = reply.encode();
    assert_eq!(s5server_reply::decode(&bytes), Ok((reply, 20)));
}

#[test]
fn reply_reencode_reproduces_the_frame() {
    let captured: Vec<u8> = vec![0x05, 0x08, 0x00, 0x01, 1, 2, 3, 4, 0x00, 0x50];
    let (reply, consumed) = s5server_reply::decode(&captured).unwrap();
    assert_eq!(reply.rep, ReplyCode::AddressTypeNotSupported);
    assert_eq!(consumed, captured.len());
    assert_eq!(reply.encode(), captured);
}

#[test]
fn reply_decode_errors() {
    assert_eq!(s5server_reply::decode(&[]), Err(Socks5Error::TruncatedFrame));
    assert_eq!(s5server_reply::decode(&[0x06, 0x00]), Err(Socks5Error::UnsupportedVersion));
    assert_eq!(s5server_reply::decode(&[0x05, 0x00, 0x00]), Err(Socks5Error::TruncatedFrame));
    assert_eq!(
        s5server_reply::decode(&[0x05, 0x09, 0x00, 0x01, 0, 0, 0, 0, 0, 0]),
        Err(Socks5Error::UnsupportedVersion)
    );
    assert_eq!(
        s5server_reply::decode(&[0x05, 0x00, 0x07, 0x01, 0, 0, 0, 0, 0, 0]),
        Err(Socks5Error::UnsupportedVersion)
    );
    assert_eq!(
        s5server_reply::decode(&[0x05, 0x00, 0x00, 0x00, 0, 0, 0, 0, 0, 0]),
        Err(Socks5Error::MalformedAddress)
    );
    assert_eq!(
        s5server_reply::decode(&[0x05, 0x00, 0x00, 0x03, 0x00, 0, 0]),
        Err(Socks5Error::MalformedLength)
    );
    assert_eq!(
        s5server_reply::decode(&[0x05, 0x00, 0x00, 0x01, 0, 0, 0, 0, 0]),
        Err(Socks5Error::TruncatedFrame)
    );
}
