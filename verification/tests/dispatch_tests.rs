use quic_dispatch::conn::Connection;
use quic_dispatch::dispatch::{apply_decision, dispatch, DispatchDecision, HeaderInfo, PacketType};
use quic_dispatch::table::ClientMap;
use quic_dispatch::token::{mint_token, ClientAddr};

fn addr() -> ClientAddr {
    ClientAddr { ip: vec![192, 0, 2, 1], port: 4433 }
}

fn header(ty: PacketType, token: Option<Vec<u8>>) -> HeaderInfo {
    HeaderInfo {
        ty,
        version: 1,
        dcid: vec![7u8; 20],
        scid: vec![8u8; 8],
        token,
    }
}

fn derived() -> Vec<u8> {
    vec![0x55u8; 20]
}

#[test]
fn unknown_cid_non_initial_dropped() {
    let map = ClientMap::new();
    let hdr = header(PacketType::Short, None);
    let d = dispatch(&map, &hdr, &derived(), &addr(), true, true);
    assert!(matches!(d, DispatchDecision::DropUnknownType));
    // No connection state was created.
    assert_eq!(map.len(), 0);
}

#[test]
fn unknown_cid_handshake_type_dropped() {
    let map = ClientMap::new();
    let hdr = header(PacketType::Handshake, None);
    let d = dispatch(&map, &hdr, &derived(), &addr(), false, true);
    assert!(matches!(d, DispatchDecision::DropUnknownType));
    assert_eq!(map.len(), 0);
}

#[test]
fn unsupported_version_negotiated() {
    let map = ClientMap::new();
    let hdr = header(PacketType::Initial, Some(Vec::new()));
    let d = dispatch(&map, &hdr, &derived(), &addr(), true, false);
    // Exactly one version-negotiation response, no table entry.
    assert!(matches!(d, DispatchDecision::SendVersionNegotiation));
    assert_eq!(map.len(), 0);
}

#[test]
fn empty_token_gets_retry() {
    let map = ClientMap::new();
    let hdr = header(PacketType::Initial, Some(Vec::new()));
    let d = dispatch(&map, &hdr, &derived(), &addr(), true, true);
    match d {
        DispatchDecision::SendRetry { token, new_scid } => {
            assert_eq!(token, mint_token(&hdr.dcid, &addr()));
            assert_eq!(new_scid, derived());
        }
        other => panic!("expected a retry challenge, got {:?}", other),
    }
    assert_eq!(map.len(), 0);
}

#[test]
fn invalid_token_dropped() {
    let map = ClientMap::new();
    let hdr = header(PacketType::Initial, Some(vec![1, 2, 3, 4, 5, 6, 7]));
    let d = dispatch(&map, &hdr, &derived(), &addr(), true, true);
    assert!(matches!(d, DispatchDecision::DropInvalidToken));
    assert_eq!(map.len(), 0);
}

#[test]
fn token_for_other_address_dropped() {
    let map = ClientMap::new();
    let other = ClientAddr { ip: vec![192, 0, 2, 9], port: 4433 };
    let token = mint_token(&vec![3u8; 20], &other);
    let hdr = header(PacketType::Initial, Some(token));
    let d = dispatch(&map, &hdr, &derived(), &addr(), true, true);
    assert!(matches!(d, DispatchDecision::DropInvalidToken));
}

#[test]
fn valid_token_accepted_with_echoed_cid() {
    let map = ClientMap::new();
    let odcid = vec![0xabu8; 16];
    let token = mint_token(&odcid, &addr());
    let hdr = header(PacketType::Initial, Some(token));
    let d = dispatch(&map, &hdr, &derived(), &addr(), true, true);
    match d {
        DispatchDecision::Accept { scid, odcid: got } => {
            // The server reuses the identifier it sent in the Retry packet.
            assert_eq!(scid, hdr.dcid);
            assert_eq!(got, Some(odcid));
        }
        other => panic!("expected an accept, got {:?}", other),
    }
}

#[test]
fn short_echoed_cid_dropped() {
    let map = ClientMap::new();
    let odcid = vec![0xabu8; 16];
    let token = mint_token(&odcid, &addr());
    let mut hdr = header(PacketType::Initial, Some(token));
    hdr.dcid = vec![7u8; 8]; // not the full-length identifier the server minted
    let d = dispatch(&map, &hdr, &derived(), &addr(), true, true);
    assert!(matches!(d, DispatchDecision::DropBadDcidLen));
}

#[test]
fn no_validation_accepts_under_derived_cid() {
    let map = ClientMap::new();
    let hdr = header(PacketType::Initial, Some(Vec::new()));
    let d = dispatch(&map, &hdr, &derived(), &addr(), false, true);
    match d {
        DispatchDecision::Accept { scid, odcid } => {
            assert_eq!(scid, derived());
            assert_eq!(odcid, None);
        }
        other => panic!("expected an accept, got {:?}", other),
    }
}

#[test]
fn known_cid_fed_to_connection() {
    let mut map = ClientMap::new();
    assert!(map.insert_new(derived(), Connection::new(1350)));
    let hdr = header(PacketType::Short, None);
    let d = dispatch(&map, &hdr, &derived(), &addr(), true, true);
    match d {
        DispatchDecision::Feed { key } => assert_eq!(key, derived()),
        other => panic!("expected a feed, got {:?}", other),
    }
    // A packet for the client-chosen identifier resolves to the same record.
    let mut map2 = ClientMap::new();
    assert!(map2.insert_new(hdr.dcid.clone(), Connection::new(1350)));
    let d2 = dispatch(&map2, &hdr, &derived(), &addr(), true, true);
    match d2 {
        DispatchDecision::Feed { key } => assert_eq!(key, hdr.dcid),
        other => panic!("expected a feed, got {:?}", other),
    }
}

#[test]
fn decisions_create_state_only_on_accept() {
    let mut map = ClientMap::new();
    let addr_v = addr();
    // A retry challenge allocates nothing.
    let hdr = header(PacketType::Initial, Some(Vec::new()));
    let d = dispatch(&map, &hdr, &derived(), &addr_v, true, true);
    assert!(matches!(d, DispatchDecision::SendRetry { .. }));
    assert_eq!(apply_decision(&mut map, &d, 1350), None);
    assert_eq!(map.len(), 0);
    // A version-negotiation response allocates nothing.
    let d = dispatch(&map, &hdr, &derived(), &addr_v, true, false);
    assert!(matches!(d, DispatchDecision::SendVersionNegotiation));
    assert_eq!(apply_decision(&mut map, &d, 1350), None);
    assert_eq!(map.len(), 0);
    // A dropped packet allocates nothing.
    let short = header(PacketType::Short, None);
    let d = dispatch(&map, &short, &derived(), &addr_v, true, true);
    assert_eq!(apply_decision(&mut map, &d, 1350), None);
    assert_eq!(map.len(), 0);
    // An accepted handshake creates exactly one fresh record.
    let odcid = vec![0xab; 16];
    let tok_hdr = header(PacketType::Initial, Some(mint_token(&odcid, &addr_v)));
    let d = dispatch(&map, &tok_hdr, &derived(), &addr_v, true, true);
    assert_eq!(apply_decision(&mut map, &d, 1350), Some(0));
    assert_eq!(map.len(), 1);
    assert_eq!(map.key_at(0), &tok_hdr.dcid);
    assert!(!map.conn_at(0).app_proto_selected);
    assert_eq!(map.conn_at(0).max_send_burst, 13500);
    // The next packet for that identifier is fed, not re-accepted.
    let follow = header(PacketType::Short, None);
    let d = dispatch(&map, &follow, &derived(), &addr_v, true, true);
    assert!(matches!(d, DispatchDecision::Feed { .. }));
    assert_eq!(apply_decision(&mut map, &d, 1350), Some(0));
    assert_eq!(map.len(), 1);
}

#[test]
fn duplicate_insert_refused() {
    let mut map = ClientMap::new();
    assert!(map.insert_new(vec![1, 2], Connection::new(1350)));
    assert!(!map.insert_new(vec![1, 2], Connection::new(1200)));
    assert_eq!(map.len(), 1);
}
