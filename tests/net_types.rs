use sabrelite_userland::{EthernetAddress, Ipv4Address, Port};

#[test]
fn port_converts_both_ways() {
    let p = Port::from(8888u16);
    assert_eq!(p, Port(8888));
    let n: u16 = p.into();
    assert_eq!(n, 8888);
}

#[test]
fn port_text_is_decimal() {
    assert_eq!(Port(8888).to_string(), "8888");
    assert_eq!(Port(0).to_string(), "0");
    assert_eq!(Port(65535).to_string(), "65535");
}

#[test]
fn ports_order_by_number() {
    assert!(Port(80) < Port(443));
    assert_eq!(Port::default(), Port(0));
}

#[test]
fn ethernet_address_converts_both_ways() {
    let a = EthernetAddress::from([0x00, 0x0A, 0x35, 0xDE, 0xAD, 0xBE]);
    let octets: [u8; 6] = a.into();
    assert_eq!(octets, [0x00, 0x0A, 0x35, 0xDE, 0xAD, 0xBE]);
}

#[test]
fn ethernet_address_text_is_upper_hex_pairs() {
    let a = EthernetAddress([0x00, 0x0A, 0x35, 0xDE, 0xAD, 0xBE]);
    assert_eq!(a.to_string(), "00:0A:35:DE:AD:BE");
    assert_eq!(EthernetAddress([0xFF; 6]).to_string(), "FF:FF:FF:FF:FF:FF");
}

#[test]
fn ipv4_address_converts_both_ways() {
    let a = Ipv4Address::from([192, 168, 1, 10]);
    let octets: [u8; 4] = a.into();
    assert_eq!(octets, [192, 168, 1, 10]);
}

#[test]
fn ipv4_address_text_is_dotted_decimal() {
    assert_eq!(Ipv4Address([192, 168, 1, 10]).to_string(), "192.168.1.10");
    assert_eq!(Ipv4Address([0, 0, 0, 0]).to_string(), "0.0.0.0");
    assert_eq!(Ipv4Address([255, 255, 255, 255]).to_string(), "255.255.255.255");
}
