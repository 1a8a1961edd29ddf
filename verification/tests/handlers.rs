use stun_server::address::{IpAddress, SocketAddress};
use stun_server::errors::ErrorCodeEnum;
use stun_server::handlers::{check_validity, handle_message};

const REQUEST: [u8; 20] = [
    0, 1, 0, 0, 33, 18, 164, 66, 28, 54, 51, 69, 185, 194, 210, 171, 179, 118, 57, 253,
];

const SUCCESS_RESPONSE: [u8; 44] = [
    1, 1, 0, 24, 33, 18, 164, 66, 28, 54, 51, 69, 185, 194, 210, 171, 179, 118, 57, 253, 0, 32, 0,
    8, 0, 1, 58, 43, 94, 18, 164, 67, 0, 1, 0, 8, 0, 1, 27, 57, 127, 0, 0, 1,
];

fn localhost_peer() -> SocketAddress {
    SocketAddress { ip: IpAddress::V4([127, 0, 0, 1]), port: 6969 }
}

#[test]
fn handlers_test() {
    assert_eq!(1, 1);
}

#[test]
fn test_udp_message_handling() {
    let mut buffer = [0u8; 1024];
    buffer[..20].copy_from_slice(&REQUEST);

    let response = handle_message(&buffer, localhost_peer()).serialize();
    assert_eq!(response, SUCCESS_RESPONSE);
}

#[test]
fn test_exact_request_buffer() {
    let response = handle_message(&REQUEST, localhost_peer()).serialize();
    assert_eq!(response, SUCCESS_RESPONSE);
}

#[test]
fn test_validity_accepts_binding_request() {
    assert!(check_validity(&REQUEST));
}

#[test]
fn test_validity_accepts_binding_indication() {
    let mut buffer = REQUEST;
    buffer[1] = 0x11;
    assert!(check_validity(&buffer));
}

#[test]
fn test_validity_rejects_short_buffer() {
    assert!(!check_validity(&REQUEST[..19]));
    assert!(!check_validity(&[]));
}

#[test]
fn test_validity_rejects_bad_cookie() {
    let mut buffer = REQUEST;
    buffer[4] = 0x22;
    assert!(!check_validity(&buffer));
}

#[test]
fn test_validity_rejects_unknown_type() {
    let mut buffer = REQUEST;
    buffer[1] = 0x02;
    assert!(!check_validity(&buffer));
}

#[test]
fn test_validity_rejects_high_first_byte() {
    let mut buffer = REQUEST;
    buffer[0] = 64;
    assert!(!check_validity(&buffer));
}

#[test]
fn test_error_response_is_bad_request() {
    let mut buffer = REQUEST;
    buffer[1] = 0x02;
    let bytes = handle_message(&buffer, localhost_peer()).serialize();

    // Binding Error Response with the request's transaction id.
    assert_eq!(&bytes[..2], &[0x01, 0x11]);
    assert_eq!(&bytes[4..8], &[33, 18, 164, 66]);
    assert_eq!(&bytes[8..20], &REQUEST[8..20]);

    // A single ERROR-CODE attribute carrying 400 and the RFC reason.
    let reason = ErrorCodeEnum::BadRequest.reason_phrase();
    assert_eq!(&bytes[20..22], &[0x00, 0x09]);
    let attribute_length = u16::from_be_bytes([bytes[22], bytes[23]]) as usize;
    assert_eq!(attribute_length, 4 + reason.len());
    assert_eq!(u32::from_be_bytes([bytes[24], bytes[25], bytes[26], bytes[27]]), 400);
    assert_eq!(&bytes[28..28 + reason.len()], reason.as_bytes());
}

#[test]
fn test_error_response_for_short_buffer() {
    let bytes = handle_message(&REQUEST[..8], localhost_peer()).serialize();
    assert_eq!(&bytes[..2], &[0x01, 0x11]);
    assert_eq!(u32::from_be_bytes([bytes[24], bytes[25], bytes[26], bytes[27]]), 400);
}

#[test]
fn test_transaction_id_round_trip() {
    let mut buffer = REQUEST;
    for (i, byte) in buffer[8..20].iter_mut().enumerate() {
        *byte = 0xe0 + i as u8;
    }
    let valid_response = handle_message(&buffer, localhost_peer()).serialize();
    assert_eq!(&valid_response[8..20], &buffer[8..20]);

    buffer[4] = 0;
    let error_response = handle_message(&buffer, localhost_peer()).serialize();
    assert_eq!(&error_response[8..20], &buffer[8..20]);
}

#[test]
fn test_length_field_matches_body() {
    let peers = [
        SocketAddress { ip: IpAddress::V4([127, 0, 0, 1]), port: 6969 },
        SocketAddress { ip: IpAddress::V6([0x20, 0x01, 0, 0, 0, 0, 0, 0, 0, 0, 0, 0, 0, 0, 0, 1]), port: 3478 },
    ];
    let mut bad_request = REQUEST;
    bad_request[0] = 0x7f;
    for peer in peers {
        for raw in [&REQUEST[..], &bad_request[..]] {
            let bytes = handle_message(raw, peer).serialize();
            let length = u16::from_be_bytes([bytes[2], bytes[3]]) as usize;
            assert_eq!(length, bytes.len() - 20);
            assert_eq!(length % 4, 0);
        }
    }
}

#[test]
fn test_distinct_peers_get_own_address() {
    // Requests from many distinct simulated peers: each response embeds
    // the address of exactly the peer it answers.
    for i in 0..50u8 {
        let peer = SocketAddress { ip: IpAddress::V4([10, 0, i, 1]), port: 1000 + i as u16 };
        let bytes = handle_message(&REQUEST, peer).serialize();
        // The MAPPED-ADDRESS attribute is the second one, at offset 32.
        assert_eq!(&bytes[32..36], &[0x00, 0x01, 0x00, 0x08]);
        assert_eq!(u16::from_be_bytes([bytes[38], bytes[39]]), 1000 + i as u16);
        assert_eq!(&bytes[40..44], &[10, 0, i, 1]);
    }
}

#[test]
fn test_response_for_v6_peer() {
    let peer = SocketAddress {
        ip: IpAddress::V6([
            0x20, 0x01, 0x0d, 0xb8, 0, 0, 0, 0, 0, 0, 0, 0, 0, 0, 0, 0x42,
        ]),
        port: 3478,
    };
    let bytes = handle_message(&REQUEST, peer).serialize();
    // Body: XOR-MAPPED-ADDRESS (24 bytes) then MAPPED-ADDRESS (24 bytes).
    assert_eq!(bytes.len(), 20 + 48);
    assert_eq!(u16::from_be_bytes([bytes[2], bytes[3]]), 48);
    // Family is 0x02 in both attributes.
    assert_eq!(bytes[25], 0x02);
    assert_eq!(bytes[49], 0x02);
    // X-Port and X-Address: the port against the high cookie half, every
    // octet against the cookie followed by the request's transaction id.
    assert_eq!(&bytes[26..28], &[0x2c, 0x84]);
    assert_eq!(
        &bytes[28..44],
        &[
            0x01, 0x13, 0xa9, 0xfa, 0x1c, 0x36, 0x33, 0x45, 0xb9, 0xc2, 0xd2, 0xab, 0xb3, 0x76,
            0x39, 0xbf
        ]
    );
    // The MAPPED-ADDRESS carries the address in the clear.
    assert_eq!(u16::from_be_bytes([bytes[50], bytes[51]]), 3478);
    assert_eq!(
        &bytes[52..68],
        &[0x20, 0x01, 0x0d, 0xb8, 0, 0, 0, 0, 0, 0, 0, 0, 0, 0, 0, 0x42]
    );
}
