use xdp_filter::scan::{check_for_ip, find_last_word, find_marker, parse_dotted_quad, read_group};

#[test]
fn an_address_line_gives_its_address() {
    assert_eq!(check_for_ip(b"Address: 93.184.216.34"), Some(0x5db8_d822));
    assert_eq!(check_for_ip(b"Address:\t10.0.0.1  \r\n"), Some(0x0a00_0001));
    assert_eq!(check_for_ip(b"1.2.3.4 Address: 5.6.7.8"), Some(0x0506_0708));
    assert_eq!(check_for_ip(b"Address: 0.0.0.0"), Some(0));
    assert_eq!(check_for_ip(b"Address: 255.255.255.255"), Some(u32::MAX));
    assert_eq!(check_for_ip(b"Non-authoritative Address: 0.1.2.3"), Some(0x0001_0203));
}

#[test]
fn a_line_without_the_word_gives_nothing() {
    assert_eq!(check_for_ip(b""), None);
    assert_eq!(check_for_ip(b"   "), None);
    assert_eq!(check_for_ip(b"Name: example.com"), None);
    assert_eq!(check_for_ip(b"93.184.216.34"), None);
    assert_eq!(check_for_ip(b"Addresses: 1.2.3.4"), None);
    assert_eq!(check_for_ip(b"address: 1.2.3.4"), None);
    assert_eq!(check_for_ip(b"Address 1.2.3.4"), None);
}

#[test]
fn a_last_word_that_is_no_ipv4_address_gives_nothing() {
    assert_eq!(check_for_ip(b"Address:"), None);
    assert_eq!(check_for_ip(b"Address: "), None);
    assert_eq!(check_for_ip(b"Address:1.2.3.4"), None);
    assert_eq!(check_for_ip(b"Address: 2606:2800:220:1:248:1893:25c8:1946"), None);
    assert_eq!(check_for_ip(b"Address: 8.8.8.8#53"), None);
    assert_eq!(check_for_ip(b"Address: 1.1.1.1 Server:"), None);
    assert_eq!(check_for_ip(b"Address: 256.1.1.1"), None);
    assert_eq!(check_for_ip(b"Address: 1.2.3.999"), None);
    assert_eq!(check_for_ip(b"Address: 01.2.3.4"), None);
    assert_eq!(check_for_ip(b"Address: 1.2.3.00"), None);
    assert_eq!(check_for_ip(b"Address: 1234.1.1.1"), None);
    assert_eq!(check_for_ip(b"Address: 1.2.3"), None);
    assert_eq!(check_for_ip(b"Address: 1.2.3.4.5"), None);
    assert_eq!(check_for_ip(b"Address: 1.2.3.4."), None);
    assert_eq!(check_for_ip(b"Address: .1.2.3.4"), None);
    assert_eq!(check_for_ip(b"Address: 1..2.3"), None);
    assert_eq!(check_for_ip(b"Address: 1.2.3.4x"), None);
    assert_eq!(check_for_ip(b"Address: 1.2.3.-4"), None);
}

#[test]
fn the_parts_of_the_scan() {
    assert!(find_marker(b"xxAddress:"));
    assert!(!find_marker(b"Address"));
    assert!(!find_marker(b"Addres:s"));
    assert_eq!(find_last_word(b"ab  cde \t"), (4, 7));
    assert_eq!(find_last_word(b"abc"), (0, 3));
    assert_eq!(find_last_word(b" \n "), (0, 0));
    assert_eq!(find_last_word(b""), (0, 0));
    assert_eq!(read_group(b"7", 0), Some((7, 1)));
    assert_eq!(read_group(b"42.", 0), Some((42, 2)));
    assert_eq!(read_group(b"x255", 1), Some((255, 4)));
    assert_eq!(read_group(b"256", 0), None);
    assert_eq!(read_group(b"007", 0), None);
    assert_eq!(read_group(b"0", 0), Some((0, 1)));
    assert_eq!(read_group(b"1000", 0), None);
    assert_eq!(read_group(b"", 0), None);
    assert_eq!(read_group(b"12", 5), None);
    assert_eq!(parse_dotted_quad(b"192.168.0.1"), Some(0xc0a8_0001));
    assert_eq!(parse_dotted_quad(b"192.168.0"), None);
}
