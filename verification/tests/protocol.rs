use revsocks::protocol::AddrType;
use revsocks::protocol::AuthMethods;
use revsocks::protocol::Dispatch;
use revsocks::protocol::NegotiationState;
use revsocks::protocol::ProtocolError;
use revsocks::protocol::SockCommand;
use revsocks::protocol::SocksNegotiator;
use revsocks::protocol::SocksRequest;
use revsocks::protocol::connect_success_reply;
use revsocks::protocol::decode_port;
use revsocks::protocol::encode_request;
use revsocks::protocol::filter_methods;
use revsocks::protocol::parse_request;
use revsocks::protocol::preflight_magic;
use revsocks::protocol::preflight_ok;
use revsocks::protocol::select_method;
use revsocks::protocol::v6_groups;

#[test]
fn addr_type_from_codes() {
    assert!(matches!(AddrType::from(1), Some(AddrType::V4)));
    assert!(matches!(AddrType::from(3), Some(AddrType::Domain)));
    assert!(matches!(AddrType::from(4), Some(AddrType::V6)));
    assert!(AddrType::from(0).is_none());
    assert!(AddrType::from(2).is_none());
    assert!(AddrType::from(5).is_none());
    assert!(AddrType::from(300).is_none());
}

#[test]
fn sock_command_from_codes() {
    assert!(matches!(SockCommand::from(1), Some(SockCommand::Connect)));
    assert!(matches!(SockCommand::from(2), Some(SockCommand::Bind)));
    assert!(matches!(SockCommand::from(3), Some(SockCommand::UdpAssociate)));
    assert!(SockCommand::from(0).is_none());
    assert!(SockCommand::from(4).is_none());
    assert!(SockCommand::from(256).is_none());
}

#[test]
fn auth_method_codes() {
    assert_eq!(AuthMethods::NoAuth.code(), 0x00);
    assert_eq!(AuthMethods::UserPass.code(), 0x02);
    assert_eq!(AuthMethods::NoMethods.code(), 0xFF);
}

#[test]
fn no_auth_offered_is_chosen() {
    let accepted: Vec<u8> = vec![0x00];
    let offered: Vec<u8> = vec![0x00, 0x02];
    let (reply, proceed) = select_method(&accepted, &offered);
    assert_eq!(reply, vec![0x05, 0x00]);
    assert!(proceed);
}

#[test]
fn no_acceptable_method_gets_sentinel() {
    let accepted: Vec<u8> = vec![0x00];
    let offered: Vec<u8> = vec![0x02, 0x03];
    let (reply, proceed) = select_method(&accepted, &offered);
    assert_eq!(reply, vec![0x05, 0xFF]);
    assert!(!proceed);
}

#[test]
fn empty_offer_gets_sentinel() {
    let accepted: Vec<u8> = vec![0x00];
    let offered: Vec<u8> = Vec::new();
    let (reply, proceed) = select_method(&accepted, &offered);
    assert_eq!(reply, vec![0x05, 0xFF]);
    assert!(!proceed);
}

#[test]
fn filter_keeps_order_and_intersection() {
    let accepted: Vec<u8> = vec![0x00, 0x02];
    let offered: Vec<u8> = vec![0x05, 0x02, 0x00, 0x07, 0x00];
    assert_eq!(filter_methods(&accepted, &offered), vec![0x02, 0x00, 0x00]);
}

#[test]
fn v4_round_trip() {
    let req = SocksRequest {
        version: 5,
        command: SockCommand::Connect,
        addr_type: AddrType::V4,
        addr: vec![10, 20, 30, 40],
        port: 0xABCD,
    };
    let frame = encode_request(&req);
    assert_eq!(frame, vec![5, 1, 0, 1, 10, 20, 30, 40, 0xAB, 0xCD]);
    let (back, consumed) = parse_request(&frame).unwrap();
    assert_eq!(consumed, frame.len());
    assert_eq!(back.version, 5);
    assert_eq!(back.command, SockCommand::Connect);
    assert_eq!(back.addr_type, AddrType::V4);
    assert_eq!(back.addr, vec![10, 20, 30, 40]);
    assert_eq!(back.port, 0xABCD);
}

#[test]
fn v6_round_trip() {
    let octets: Vec<u8> = (0u8..16u8).map(|i| i.wrapping_mul(17).wrapping_add(3)).collect();
    let req = SocksRequest {
        version: 5,
        command: SockCommand::Connect,
        addr_type: AddrType::V6,
        addr: octets.clone(),
        port: 443,
    };
    let frame = encode_request(&req);
    assert_eq!(frame.len(), 22);
    let (back, consumed) = parse_request(&frame).unwrap();
    assert_eq!(consumed, 22);
    assert_eq!(back.addr_type, AddrType::V6);
    assert_eq!(back.addr, octets);
    assert_eq!(back.port, 443);
}

#[test]
fn v6_groups_are_big_endian() {
    let addr: Vec<u8> = vec![
        0x20, 0x01, 0x0d, 0xb8, 0x00, 0x00, 0x00, 0x00, 0x00, 0x00, 0xff, 0xfe, 0x12, 0x34, 0xab,
        0xcd,
    ];
    let groups = v6_groups(&addr);
    assert_eq!(
        groups,
        vec![0x2001, 0x0db8, 0x0000, 0x0000, 0x0000, 0xfffe, 0x1234, 0xabcd]
    );
}

#[test]
fn domain_round_trip_ignores_encoding() {
    // Not valid UTF-8: the domain bytes pass through untouched.
    let name: Vec<u8> = vec![0xFF, 0xFE, 0x80, 0x00, 0x41];
    let req = SocksRequest {
        version: 5,
        command: SockCommand::Connect,
        addr_type: AddrType::Domain,
        addr: name.clone(),
        port: 8080,
    };
    let frame = encode_request(&req);
    assert_eq!(frame[4], 5);
    let (back, consumed) = parse_request(&frame).unwrap();
    assert_eq!(consumed, frame.len());
    assert_eq!(back.addr_type, AddrType::Domain);
    assert_eq!(back.addr.len(), 5);
    assert_eq!(back.addr, name);
    assert_eq!(back.port, 8080);
}

#[test]
fn domain_length_byte_rules() {
    // A length byte of 3 followed by exactly 3 bytes, then the port.
    let frame: Vec<u8> = vec![5, 1, 0, 3, 3, b'a', b'b', b'c', 0, 80];
    let (req, consumed) = parse_request(&frame).unwrap();
    assert_eq!(consumed, 10);
    assert_eq!(req.addr, vec![b'a', b'b', b'c']);
    assert_eq!(req.port, 80);
    // One byte short of the declared length: truncated, not malformed.
    let short: Vec<u8> = vec![5, 1, 0, 3, 3, b'a', b'b', b'c', 0];
    assert_eq!(parse_request(&short), Err(ProtocolError::Truncated));
}

#[test]
fn parse_rejects_bad_version() {
    let frame: Vec<u8> = vec![4, 1, 0, 1, 127, 0, 0, 1, 0, 80];
    assert_eq!(parse_request(&frame), Err(ProtocolError::BadVersion));
}

#[test]
fn parse_rejects_bad_command() {
    let frame: Vec<u8> = vec![5, 9, 0, 1, 127, 0, 0, 1, 0, 80];
    assert_eq!(parse_request(&frame), Err(ProtocolError::BadCommand));
}

#[test]
fn parse_rejects_bad_addr_type() {
    let frame: Vec<u8> = vec![5, 1, 0, 2, 127, 0, 0, 1, 0, 80];
    assert_eq!(parse_request(&frame), Err(ProtocolError::BadAddrType));
}

#[test]
fn parse_rejects_truncated_frames() {
    assert_eq!(parse_request(&vec![]), Err(ProtocolError::Truncated));
    assert_eq!(parse_request(&vec![5, 1, 0]), Err(ProtocolError::Truncated));
    assert_eq!(parse_request(&vec![5, 1, 0, 1, 127, 0]), Err(ProtocolError::Truncated));
    assert_eq!(
        parse_request(&vec![5, 1, 0, 4, 1, 2, 3, 4, 5, 6]),
        Err(ProtocolError::Truncated)
    );
    assert_eq!(parse_request(&vec![5, 1, 0, 3]), Err(ProtocolError::Truncated));
}

#[test]
fn port_is_big_endian() {
    assert_eq!(decode_port(0x00, 0x50), 80);
    assert_eq!(decode_port(0x01, 0xBB), 443);
    assert_eq!(decode_port(0xFF, 0xFF), 0xFFFF);
    assert_eq!(decode_port(0x00, 0x00), 0);
}

#[test]
fn success_reply_is_fixed_loopback_frame() {
    assert_eq!(connect_success_reply(), vec![5, 0, 0, 1, 127, 0, 0, 1, 0, 0]);
}

#[test]
fn preflight_bytes() {
    let magic = preflight_magic();
    assert_eq!(magic, vec![0x22, 0x44]);
    assert!(preflight_ok(&magic));
    assert!(!preflight_ok(&vec![0x22, 0x45]));
    assert!(!preflight_ok(&vec![0x44, 0x22]));
    assert!(!preflight_ok(&vec![0x22]));
    assert!(!preflight_ok(&vec![0x22, 0x44, 0x00]));
}

#[test]
fn negotiation_proceeds_with_no_auth() {
    let mut n = SocksNegotiator::new(vec![0x00]);
    assert_eq!(n.state, NegotiationState::Start);
    assert!(n.on_greeting(5, 2));
    assert_eq!(n.state, NegotiationState::AuthNegotiate);
    assert_eq!(n.auth_nmethods, 2);
    let (reply, proceed) = n.on_methods(&vec![0x00, 0x02]);
    assert_eq!(reply, vec![5, 0]);
    assert!(proceed);
    assert_eq!(n.state, NegotiationState::RequestParse);
}

#[test]
fn negotiation_closes_on_wrong_version() {
    let mut n = SocksNegotiator::new(vec![0x00]);
    assert!(!n.on_greeting(4, 1));
    assert_eq!(n.state, NegotiationState::ErrorClosed);
}

#[test]
fn negotiation_closes_without_acceptable_method() {
    let mut n = SocksNegotiator::new(vec![0x00]);
    assert!(n.on_greeting(5, 1));
    let (reply, proceed) = n.on_methods(&vec![0x02]);
    assert_eq!(reply, vec![5, 0xFF]);
    assert!(!proceed);
    assert_eq!(n.state, NegotiationState::ErrorClosed);
}

#[test]
fn connect_request_moves_to_relaying() {
    let mut n = SocksNegotiator::new(vec![0x00]);
    assert!(n.on_greeting(5, 1));
    let (_, proceed) = n.on_methods(&vec![0x00]);
    assert!(proceed);
    let frame: Vec<u8> = vec![5, 1, 0, 1, 93, 184, 216, 34, 0, 80];
    let (req, dispatch) = n.on_request(&frame).unwrap();
    assert_eq!(dispatch, Dispatch::Connect);
    assert_eq!(req.addr, vec![93, 184, 216, 34]);
    assert_eq!(req.port, 80);
    assert_eq!(n.state, NegotiationState::Relaying);
}

#[test]
fn bind_parses_but_is_not_dispatched() {
    let mut n = SocksNegotiator::new(vec![0x00]);
    assert!(n.on_greeting(5, 1));
    let (_, proceed) = n.on_methods(&vec![0x00]);
    assert!(proceed);
    let frame: Vec<u8> = vec![5, 2, 0, 1, 10, 0, 0, 1, 31, 144];
    let (req, dispatch) = n.on_request(&frame).unwrap();
    assert_eq!(dispatch, Dispatch::ParsedUnsupported);
    assert_eq!(req.command, SockCommand::Bind);
    assert_eq!(req.port, 8080);
    assert_eq!(n.state, NegotiationState::Closed);
}

#[test]
fn udp_associate_parses_but_is_not_dispatched() {
    let mut n = SocksNegotiator::new(vec![0x00]);
    assert!(n.on_greeting(5, 1));
    let (_, proceed) = n.on_methods(&vec![0x00]);
    assert!(proceed);
    let frame: Vec<u8> = vec![5, 3, 0, 1, 10, 0, 0, 1, 0, 53];
    let (req, dispatch) = n.on_request(&frame).unwrap();
    assert_eq!(dispatch, Dispatch::ParsedUnsupported);
    assert_eq!(req.command, SockCommand::UdpAssociate);
    assert_eq!(n.state, NegotiationState::Closed);
}

#[test]
fn bad_request_closes_with_error() {
    let mut n = SocksNegotiator::new(vec![0x00]);
    assert!(n.on_greeting(5, 1));
    let (_, proceed) = n.on_methods(&vec![0x00]);
    assert!(proceed);
    let frame: Vec<u8> = vec![5, 7, 0, 1, 10, 0, 0, 1, 0, 53];
    assert_eq!(n.on_request(&frame), Err(ProtocolError::BadCommand));
    assert_eq!(n.state, NegotiationState::ErrorClosed);
}
