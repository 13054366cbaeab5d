use route_tool::addr::{
    ip_to_net_order, ipv4_from_net_order, is_valid_subnet_mask, reverse_octets, IpAddr, Ipv4Addr,
    Ipv6Addr,
};
use route_tool::encoding::{decode_utf16, to_wide};
use route_tool::ip_text::{ip_to_text, ipv4_text, parse_ip, parse_ipv4};
use route_tool::number::{dec_int_text, dec_text, hex_text, parse_byte};
use route_tool::text::{begins_with, has_text, is_text_le, split_any, trim};

#[test]
fn dotted_decimal_round_trip() {
    let ip = Ipv4Addr::new(192, 168, 123, 105);
    assert_eq!(ipv4_text(ip), "192.168.123.105");
    assert_eq!(parse_ipv4("192.168.123.105"), Some(ip));
    assert_eq!(parse_ipv4("192.168.123.0105"), None);
    assert_eq!(parse_ipv4("192.168.123.05"), None);
    assert_eq!(parse_ipv4("192.168.123"), None);
    assert_eq!(parse_ipv4("192.168.123.105."), None);
    assert_eq!(parse_ipv4(" 192.168.123.105"), None);
    assert_eq!(parse_ipv4("192.168.123.256"), None);
    assert_eq!(parse_ipv4("0.0.0.0"), Some(Ipv4Addr::new(0, 0, 0, 0)));
}

fn v6(s: [u16; 8]) -> IpAddr {
    IpAddr::V6(Ipv6Addr {
        s0: s[0],
        s1: s[1],
        s2: s[2],
        s3: s[3],
        s4: s[4],
        s5: s[5],
        s6: s[6],
        s7: s[7],
    })
}

#[test]
fn colon_text_round_trip() {
    let cases = [
        ("::", [0, 0, 0, 0, 0, 0, 0, 0]),
        ("::1", [0, 0, 0, 0, 0, 0, 0, 1]),
        ("fe80::1", [0xfe80, 0, 0, 0, 0, 0, 0, 1]),
        ("2001:db8::", [0x2001, 0xdb8, 0, 0, 0, 0, 0, 0]),
        ("1:0:2:3:4:5:6:7", [1, 0, 2, 3, 4, 5, 6, 7]),
        ("1::2:0:0:3:4", [1, 0, 0, 2, 0, 0, 3, 4]),
        ("::ffff:1.2.3.4", [0, 0, 0, 0, 0, 0xffff, 0x102, 0x304]),
    ];
    for (text, segments) in cases {
        assert_eq!(ip_to_text(v6(segments)), text);
        assert_eq!(parse_ip(text), Some(v6(segments)));
    }
    assert_eq!(
        parse_ip("1:2:3:4:5:6:1.2.3.4"),
        Some(v6([1, 2, 3, 4, 5, 6, 0x102, 0x304]))
    );
    assert_eq!(parse_ip("1:2:3:4:5:6:7::"), Some(v6([1, 2, 3, 4, 5, 6, 7, 0])));
    assert_eq!(parse_ip("1:2:3:4:5:6:7:8:9"), None);
    assert_eq!(parse_ip("1::2::3"), None);
    assert_eq!(parse_ip(":::"), None);
    assert_eq!(parse_ip("12345::"), None);
    assert_eq!(parse_ip("1.2.3.4::"), None);
    assert_eq!(parse_ip(""), None);
    assert_eq!(parse_ip("8.8.8.8"), Some(IpAddr::V4(Ipv4Addr::new(8, 8, 8, 8))));
}

#[test]
fn addresses_are_written_in_one_way() {
    for (text, written) in [
        ("1.2.3.4", Some("1.2.3.4")),
        ("01.2.3.4", None),
        ("1::", Some("1::")),
        ("::1.2.3.4", Some("::102:304")),
        ("::1.2.3", None),
        ("1:2", None),
        ("a:b:c:d:e:f:0:1", Some("a:b:c:d:e:f:0:1")),
        ("A::F", Some("a::f")),
        ("g::", None),
        ("1:2:3:4:5:6:7:1.2.3.4", None),
        ("::ffff:0:1", Some("::ffff:0.0.0.1")),
        ("0:0:1::", Some("0:0:1::")),
    ] {
        let ours = parse_ip(text).map(ip_to_text);
        assert_eq!(ours.as_deref(), written, "{text}");
    }
}

#[test]
fn net_order_puts_the_first_octet_lowest() {
    let ip = Ipv4Addr::new(192, 168, 123, 105);
    assert_eq!(ip_to_net_order(ip), 0x697b_a8c0);
    assert_eq!(ipv4_from_net_order(0x697b_a8c0), ip);
    assert_eq!(reverse_octets(ip), Ipv4Addr::new(105, 123, 168, 192));
}

#[test]
fn masks_are_ones_then_zeros() {
    for (a, b, c, d, ok) in [
        (255, 255, 255, 0, true),
        (255, 255, 254, 0, true),
        (255, 255, 255, 255, true),
        (0, 0, 0, 0, true),
        (128, 0, 0, 0, true),
        (255, 0, 255, 0, false),
        (0, 255, 255, 255, false),
        (255, 255, 255, 1, false),
    ] {
        assert_eq!(is_valid_subnet_mask(Ipv4Addr::new(a, b, c, d)), ok);
    }
}

#[test]
fn numbers_are_written_plainly() {
    assert_eq!(dec_text(0), "0");
    assert_eq!(dec_text(u64::MAX), "18446744073709551615");
    assert_eq!(dec_int_text(-32601), "-32601");
    assert_eq!(hex_text(0), "0");
    assert_eq!(hex_text(0xdead_beef), "deadbeef");
    assert_eq!(parse_byte("255"), Some(255));
    assert_eq!(parse_byte("+7"), Some(7));
    assert_eq!(parse_byte("256"), None);
    assert_eq!(parse_byte(""), None);
    assert_eq!(parse_byte("+"), None);
    assert_eq!(parse_byte("007"), Some(7));
}

#[test]
fn texts_are_trimmed_split_and_compared() {
    assert_eq!(trim(" \t a b\u{3000}\r\n"), "a b");
    assert_eq!(trim(""), "");
    assert_eq!(split_any("a,b;;c", &vec![',', ';']), vec!["a", "b", "", "c"]);
    assert_eq!(split_any("", &vec![',']), vec![""]);
    assert!(begins_with("app.log.2020", "app.log"));
    assert!(!begins_with("app", "app.log"));
    assert!(has_text("DHCP is already enabled on", "already"));
    assert!(has_text("x", ""));
    assert!(!has_text("", "x"));
    assert!(is_text_le("08:40", "16:40"));
    assert!(is_text_le("a", "ab"));
    assert!(!is_text_le("b", "ab"));
}

#[test]
fn utf16_round_trip() {
    for text in ["", "netsh", "网卡", "a\u{1f600}b"] {
        let wide = to_wide(text);
        let units: Vec<u16> = text.encode_utf16().collect();
        assert_eq!(&wide[..wide.len() - 1], &units[..]);
        assert_eq!(wide[wide.len() - 1], 0);
        assert_eq!(decode_utf16(&wide, wide.len() - 1), text);
    }
    let broken = vec![0x61, 0xd800, 0x62, 0xdc00];
    assert_eq!(decode_utf16(&broken, 4), String::from_utf16_lossy(&broken));
    assert_eq!(decode_utf16(&broken, 4), "a\u{fffd}b\u{fffd}");
}
