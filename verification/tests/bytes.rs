use socks5_impl::bytes::{append, copy_range, push_be16, read_be16};

#[test]
fn read_be16_is_big_endian() {
    assert_eq!(read_be16(&[0x1F, 0x90], 0), 8080);
    assert_eq!(read_be16(&[0xAA, 0x01, 0xBB], 1), 443);
    assert_eq!(read_be16(&[0x00, 0x00], 0), 0);
    assert_eq!(read_be16(&[0xFF, 0xFF], 0), 65535);
    assert_eq!(read_be16(&[0x01, 0x00], 0), 256);
}

#[test]
fn push_be16_is_big_endian() {
    let mut out = vec![0x07];
    push_be16(&mut out, 8080);
    assert_eq!(out, vec![0x07, 0x1F, 0x90]);
    push_be16(&mut out, 1);
    assert_eq!(out, vec![0x07, 0x1F, 0x90, 0x00, 0x01]);
}

#[test]
fn be16_round_trip() {
    for value in [0u16, 1, 255, 256, 1080, 0x1234, 65535] {
        let mut out = Vec::new();
        push_be16(&mut out, value);
        assert_eq!(read_be16(&out, 0), value);
    }
}

#[test]
fn copy_range_copies_the_range() {
    assert_eq!(copy_range(&[1, 2, 3, 4, 5], 1, 4), vec![2, 3, 4]);
    assert_eq!(copy_range(&[1, 2, 3], 0, 3), vec![1, 2, 3]);
    assert_eq!(copy_range(&[1, 2, 3], 2, 2), Vec::<u8>::new());
}

#[test]
fn append_adds_behind_what_is_there() {
    let mut out = vec![9];
    append(&mut out, &[8, 7]);
    append(&mut out, &[]);
    assert_eq!(out, vec![9, 8, 7]);
}
