use socks5_impl::codes::AuthMethod;
use socks5_impl::selector::{offers, select};

#[test]
fn select_prefers_user_password_when_both_are_offered() {
    let supported = [AuthMethod::UserPassword, AuthMethod::NoAuth];
    assert_eq!(select(&supported, &[0x00, 0x02]), Some(AuthMethod::UserPassword));
    assert_eq!(select(&supported, &[0x02, 0x00]), Some(AuthMethod::UserPassword));
}

#[test]
fn select_falls_back_to_no_auth() {
    let supported = [AuthMethod::UserPassword, AuthMethod::NoAuth];
    assert_eq!(select(&supported, &[0x00]), Some(AuthMethod::NoAuth));
}

#[test]
fn select_finds_nothing_without_intersection() {
    assert_eq!(select(&[AuthMethod::UserPassword], &[0x00]), None);
}

#[test]
fn select_follows_the_servers_order_not_the_clients() {
    let supported = [AuthMethod::NoAuth, AuthMethod::UserPassword];
    assert_eq!(select(&supported, &[0x02, 0x00]), Some(AuthMethod::NoAuth));
}

#[test]
fn select_never_picks_gssapi_or_private_methods() {
    let supported = [AuthMethod::UserPassword, AuthMethod::NoAuth];
    assert_eq!(select(&supported, &[0x01]), None);
    assert_eq!(select(&supported, &[0x80, 0xFE, 0x01, 0xFF]), None);
}

#[test]
fn select_with_empty_lists() {
    assert_eq!(select(&[], &[0x00, 0x02]), None);
    assert_eq!(select(&[AuthMethod::NoAuth], &[]), None);
}

#[test]
fn select_accepts_duplicates() {
    let supported = [AuthMethod::UserPassword, AuthMethod::NoAuth];
    assert_eq!(select(&supported, &[0x00, 0x00, 0x01, 0x00]), Some(AuthMethod::NoAuth));
}

#[test]
fn offers_finds_a_code_among_the_offered() {
    assert!(offers(&[0x01, 0x02], 0x02));
    assert!(!offers(&[0x01, 0x02], 0x00));
    assert!(!offers(&[], 0x00));
}
