use podlet::net::{IpAddr, Ipv4Addr, Ipv6Addr};
use podlet::text::{char_is_white_space, str_eq, str_has_white_space, u32_to_decimal};

fn v6(segments: [u16; 8]) -> String {
    Ipv6Addr { segments }.to_text()
}

#[test]
fn ipv4_text_is_dotted_decimal() {
    assert_eq!(Ipv4Addr { octets: [100, 64, 49, 10] }.to_text(), "100.64.49.10");
    assert_eq!(Ipv4Addr { octets: [0, 0, 0, 0] }.to_text(), "0.0.0.0");
    assert_eq!(Ipv4Addr { octets: [255, 255, 255, 255] }.to_text(), "255.255.255.255");
}

#[test]
fn ipv6_text_is_canonical() {
    assert_eq!(v6([0, 0, 0, 0, 0, 0, 0, 0]), "::");
    assert_eq!(v6([0, 0, 0, 0, 0, 0, 0, 1]), "::1");
    assert_eq!(v6([0x2001, 0xdb8, 0, 0, 0, 0, 0, 1]), "2001:db8::1");
    assert_eq!(v6([0x2001, 0xdb8, 0, 0, 1, 0, 0, 1]), "2001:db8::1:0:0:1");
    assert_eq!(v6([0x2001, 0xdb8, 0, 1, 1, 1, 1, 1]), "2001:db8:0:1:1:1:1:1");
    assert_eq!(v6([0xfe80, 0, 0, 0, 0x1ff, 0xfe23, 0x4567, 0x890a]), "fe80::1ff:fe23:4567:890a");
    assert_eq!(v6([0, 0, 0, 0, 0, 0xffff, 0xc000, 0x0280]), "::ffff:192.0.2.128");
    assert_eq!(v6([1, 0, 0, 2, 0, 0, 0, 3]), "1:0:0:2::3");
}

#[test]
fn ip_text_matches_the_address_kind() {
    assert_eq!(IpAddr::V4(Ipv4Addr { octets: [1, 1, 1, 1] }).to_text(), "1.1.1.1");
    assert_eq!(IpAddr::V6(Ipv6Addr { segments: [0, 0, 0, 0, 0, 0, 0, 1] }).to_text(), "::1");
}

#[test]
fn decimal_text_has_no_leading_zeros() {
    assert_eq!(u32_to_decimal(0), "0");
    assert_eq!(u32_to_decimal(506120), "506120");
    assert_eq!(u32_to_decimal(u32::MAX), "4294967295");
}

#[test]
fn white_space_follows_unicode() {
    assert!(char_is_white_space(' '));
    assert!(char_is_white_space('\t'));
    assert!(char_is_white_space('\u{3000}'));
    assert!(!char_is_white_space('a'));
    assert!(str_has_white_space("a b"));
    assert!(!str_has_white_space("ab"));
    assert!(str_eq("x-pod", "x-pod"));
    assert!(!str_eq("x-pod", "x-pods"));
}
