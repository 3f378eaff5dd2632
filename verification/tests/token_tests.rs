use quic_dispatch::token::{mint_token, validate_token, ClientAddr};

fn v4(a: u8, b: u8, c: u8, d: u8, port: u16) -> ClientAddr {
    ClientAddr { ip: vec![a, b, c, d], port }
}

fn v6(first: u8, port: u16) -> ClientAddr {
    let mut ip = vec![0u8; 16];
    ip[0] = first;
    ClientAddr { ip, port }
}

#[test]
fn token_exact_format() {
    let addr = v4(192, 0, 2, 1, 4433);
    let token = mint_token(&vec![0xaa, 0xbb, 0xcc], &addr);
    assert_eq!(
        token,
        vec![
            b'q', b'u', b'i', b'c', b'h', b'e', 192, 0, 2, 1, 0xaa, 0xbb, 0xcc
        ]
    );
}

#[test]
fn token_round_trip_v4() {
    let addr = v4(203, 0, 113, 7, 9000);
    let cid = vec![1, 2, 3, 4, 5, 6, 7, 8];
    let token = mint_token(&cid, &addr);
    assert_eq!(validate_token(&addr, &token), Some(cid));
}

#[test]
fn token_round_trip_v6() {
    let addr = v6(0xfe, 1);
    let cid = vec![9u8; 20];
    let token = mint_token(&cid, &addr);
    assert_eq!(validate_token(&addr, &token), Some(cid));
}

#[test]
fn token_round_trip_empty_cid() {
    let addr = v4(10, 0, 0, 1, 1);
    let token = mint_token(&Vec::new(), &addr);
    assert_eq!(validate_token(&addr, &token), Some(Vec::new()));
}

#[test]
fn token_rejected_for_other_address() {
    let addr = v4(192, 0, 2, 1, 4433);
    let other = v4(192, 0, 2, 2, 4433);
    let token = mint_token(&vec![1, 2, 3], &addr);
    assert_eq!(validate_token(&other, &token), None);
}

#[test]
fn token_rejected_bad_marker() {
    let addr = v4(192, 0, 2, 1, 4433);
    let mut token = mint_token(&vec![1, 2, 3], &addr);
    token[0] = b'x';
    assert_eq!(validate_token(&addr, &token), None);
}

#[test]
fn token_rejected_too_short() {
    let addr = v4(192, 0, 2, 1, 4433);
    assert_eq!(validate_token(&addr, &vec![b'q', b'u', b'i']), None);
    // Marker alone, no room for the address octets.
    assert_eq!(
        validate_token(&addr, &vec![b'q', b'u', b'i', b'c', b'h', b'e']),
        None
    );
}
