//! Tests for the SOCKS5 wire codec: greeting and request parsing and
//! reply framing.
use socks_bridge::socks::get_command_name;
use socks_bridge::socks::make_method_selection;
use socks_bridge::socks::make_reply;
use socks_bridge::socks::offers_no_authentication;
use socks_bridge::socks::parse_client_hello;
use socks_bridge::socks::parse_socks_request;
use socks_bridge::socks::AddressType;
use socks_bridge::socks::AuthenticationMethod;
use socks_bridge::socks::HelloParse;
use socks_bridge::socks::RequestParse;
use socks_bridge::socks::SocksCommand;
use socks_bridge::socks::SocksRequestAddress;

#[test]
fn hello_complete_with_no_auth() {
    let r = parse_client_hello(&[5, 1, 0]);
    assert_eq!(
        r,
        HelloParse::Parsed { methods: vec![AuthenticationMethod(0)], consumed: 3 }
    );
}

#[test]
fn hello_complete_several_methods() {
    let r = parse_client_hello(&[5, 3, 2, 0, 1]);
    assert_eq!(
        r,
        HelloParse::Parsed {
            methods: vec![
                AuthenticationMethod(2),
                AuthenticationMethod(0),
                AuthenticationMethod(1)
            ],
            consumed: 5
        }
    );
}

#[test]
fn hello_zero_methods_is_complete_and_offers_nothing() {
    let r = parse_client_hello(&[5, 0]);
    match r {
        HelloParse::Parsed { methods, consumed } => {
            assert_eq!(consumed, 2);
            assert!(methods.is_empty());
            assert!(!offers_no_authentication(&methods));
        }
        other => panic!("expected a parsed greeting, got {:?}", other),
    }
}

#[test]
fn hello_short_reads_are_incomplete() {
    assert_eq!(parse_client_hello(&[]), HelloParse::Incomplete);
    assert_eq!(parse_client_hello(&[5]), HelloParse::Incomplete);
    assert_eq!(parse_client_hello(&[5, 2, 0]), HelloParse::Incomplete);
}

#[test]
fn hello_wrong_version_is_malformed() {
    assert_eq!(parse_client_hello(&[4, 1, 0]), HelloParse::Malformed);
}

#[test]
fn hello_extra_bytes_are_not_consumed() {
    let r = parse_client_hello(&[5, 1, 0, 9, 9]);
    assert_eq!(
        r,
        HelloParse::Parsed { methods: vec![AuthenticationMethod(0)], consumed: 3 }
    );
}

fn domain_request(cmd: u8, host: &str, port: u16) -> Vec<u8> {
    let mut b = vec![5u8, cmd, 0, 3, host.len() as u8];
    b.extend_from_slice(host.as_bytes());
    b.push((port >> 8) as u8);
    b.push((port & 0xff) as u8);
    b
}

#[test]
fn request_domain_name() {
    let b = domain_request(1, "example", 80);
    let r = parse_socks_request(&b);
    match r {
        RequestParse::Parsed { request, consumed } => {
            assert_eq!(consumed, 14);
            assert_eq!(request.command, SocksCommand(1));
            assert_eq!(request.port, 80);
            assert_eq!(
                request.address,
                SocksRequestAddress::DomainName(String::from("example"))
            );
        }
        other => panic!("expected a parsed request, got {:?}", other),
    }
}

#[test]
fn request_v4_address() {
    let r = parse_socks_request(&[5, 1, 0, 1, 127, 0, 0, 1, 0, 80]);
    match r {
        RequestParse::Parsed { request, consumed } => {
            assert_eq!(consumed, 10);
            assert_eq!(request.command, SocksCommand(1));
            assert_eq!(request.port, 80);
            assert_eq!(request.address, SocksRequestAddress::V4(vec![127, 0, 0, 1]));
        }
        other => panic!("expected a parsed request, got {:?}", other),
    }
}

#[test]
fn request_v6_address() {
    let mut b = vec![5u8, 1, 0, 4];
    b.extend_from_slice(&[0, 0, 0, 0, 0, 0, 0, 0, 0, 0, 0, 0, 0, 0, 0, 1]);
    b.extend_from_slice(&[0x1f, 0x90]);
    let r = parse_socks_request(&b);
    match r {
        RequestParse::Parsed { request, consumed } => {
            assert_eq!(consumed, 22);
            assert_eq!(request.port, 8080);
            assert_eq!(
                request.address,
                SocksRequestAddress::V6(vec![0, 0, 0, 0, 0, 0, 0, 0, 0, 0, 0, 0, 0, 0, 0, 1])
            );
        }
        other => panic!("expected a parsed request, got {:?}", other),
    }
}

#[test]
fn request_unknown_address_type() {
    let r = parse_socks_request(&[5, 1, 0, 2, 0, 0, 0]);
    assert_eq!(r, RequestParse::UnknownAddressType);
}

#[test]
fn request_wrong_version_is_malformed() {
    assert_eq!(parse_socks_request(&[4, 1, 0, 1]), RequestParse::Malformed);
}

#[test]
fn request_non_utf8_domain_is_malformed() {
    let b = vec![5u8, 1, 0, 3, 2, 0xff, 0xfe, 0, 80];
    assert_eq!(parse_socks_request(&b), RequestParse::Malformed);
}

#[test]
fn request_short_reads_are_incomplete() {
    assert_eq!(parse_socks_request(&[]), RequestParse::Incomplete);
    assert_eq!(parse_socks_request(&[5, 1, 0]), RequestParse::Incomplete);
    assert_eq!(parse_socks_request(&[5, 1, 0, 1, 127, 0]), RequestParse::Incomplete);
    assert_eq!(parse_socks_request(&[5, 1, 0, 3]), RequestParse::Incomplete);
    assert_eq!(parse_socks_request(&[5, 1, 0, 3, 7, b'e']), RequestParse::Incomplete);
    let mut v6 = vec![5u8, 1, 0, 4];
    v6.extend_from_slice(&[0; 10]);
    assert_eq!(parse_socks_request(&v6), RequestParse::Incomplete);
}

#[test]
fn request_empty_domain_parses() {
    let b = vec![5u8, 1, 0, 3, 0, 0, 80];
    match parse_socks_request(&b) {
        RequestParse::Parsed { request, consumed } => {
            assert_eq!(consumed, 7);
            assert_eq!(request.address, SocksRequestAddress::DomainName(String::new()));
            assert_eq!(request.port, 80);
        }
        other => panic!("expected a parsed request, got {:?}", other),
    }
}

#[test]
fn reply_frame_is_ten_octets() {
    assert_eq!(make_reply(0), vec![5, 0, 0, 1, 0, 0, 0, 0, 0, 0]);
    assert_eq!(make_reply(7), vec![5, 7, 0, 1, 0, 0, 0, 0, 0, 0]);
    assert_eq!(make_reply(8), vec![5, 8, 0, 1, 0, 0, 0, 0, 0, 0]);
}

#[test]
fn method_selection_frame() {
    assert_eq!(make_method_selection(0), vec![5, 0]);
    assert_eq!(make_method_selection(255), vec![5, 255]);
}

#[test]
fn method_octet_round_trip() {
    assert_eq!(AuthenticationMethod(0).to_u8(), 0);
    assert_eq!(AuthenticationMethod(255).to_u8(), 255);
}

#[test]
fn command_octet_round_trip() {
    assert_eq!(SocksCommand(1).to_u8(), 1);
    assert_eq!(SocksCommand(3).to_u8(), 3);
}

#[test]
fn command_names() {
    assert_eq!(get_command_name(SocksCommand(1)), "CONNECT");
    assert_eq!(get_command_name(SocksCommand(2)), "BIND");
    assert_eq!(get_command_name(SocksCommand(3)), "UDP_ASSOCIATE");
    assert_eq!(get_command_name(SocksCommand(9)), "?");
}

#[test]
fn address_type_octets() {
    assert_eq!(AddressType::V4.to_u8(), 1);
    assert_eq!(AddressType::DOMAINNAME.to_u8(), 3);
    assert_eq!(AddressType::V6.to_u8(), 4);
    assert_eq!(AddressType::from_u8(1), Some(AddressType::V4));
    assert_eq!(AddressType::from_u8(3), Some(AddressType::DOMAINNAME));
    assert_eq!(AddressType::from_u8(4), Some(AddressType::V6));
    assert_eq!(AddressType::from_u8(2), None);
    assert_eq!(AddressType::from_u8(0), None);
}

#[test]
fn offers_no_authentication_looks_at_every_method() {
    assert!(offers_no_authentication(&vec![
        AuthenticationMethod(2),
        AuthenticationMethod(0)
    ]));
    assert!(!offers_no_authentication(&vec![
        AuthenticationMethod(2),
        AuthenticationMethod(1)
    ]));
}

#[test]
fn hello_with_largest_method_list() {
    let mut b = vec![5u8, 255];
    for i in 0..255u16 {
        b.push((i % 256) as u8);
    }
    match parse_client_hello(&b) {
        HelloParse::Parsed { methods, consumed } => {
            assert_eq!(consumed, 257);
            assert_eq!(methods.len(), 255);
            assert_eq!(methods[0], AuthenticationMethod(0));
            assert_eq!(methods[254], AuthenticationMethod(254));
        }
        other => panic!("expected a parsed greeting, got {:?}", other),
    }
}

#[test]
fn request_with_largest_domain() {
    let host: String = std::iter::repeat('a').take(255).collect();
    let mut b = vec![5u8, 1, 0, 3, 255];
    b.extend_from_slice(host.as_bytes());
    b.extend_from_slice(&[0, 80]);
    match parse_socks_request(&b) {
        RequestParse::Parsed { request, consumed } => {
            assert_eq!(consumed, 262);
            assert_eq!(request.address, SocksRequestAddress::DomainName(host));
            assert_eq!(request.port, 80);
        }
        other => panic!("expected a parsed request, got {:?}", other),
    }
}
