use stun_server::address::{IpAddress, SocketAddress};
use stun_server::attributes::{
    Attribute, ErrorCode, MappedAddress, UnknownAttributes, XorMappedAddress,
};

const TRANSACTION_ID: [u8; 12] = [
    0xb7, 0xe7, 0xa7, 0x01, 0xbc, 0x34, 0xd6, 0x86, 0xfa, 0x87, 0xdf, 0xae,
];

#[test]
fn test_xor_encoding_v4() {
    let base_address = SocketAddress { ip: IpAddress::V4([192, 0, 2, 1]), port: 32853 };
    let expected = SocketAddress { ip: IpAddress::V4([225, 18, 166, 67]), port: 41287 };

    assert_eq!(
        XorMappedAddress::new(base_address, &TRANSACTION_ID).address,
        expected
    );
}

#[test]
fn test_xor_encoding_v6() {
    let base_address = SocketAddress {
        ip: IpAddress::V6([
            0x20, 0x01, 0x0d, 0xb8, 0x12, 0x34, 0x56, 0x78, 0x00, 0x11, 0x22, 0x33, 0x44, 0x55,
            0x66, 0x77,
        ]),
        port: 32853,
    };
    // Every octet XOR-ed against the 128-bit key: the magic cookie bytes
    // 21 12 a4 42, then the twelve transaction id bytes.
    let expected = SocketAddress {
        ip: IpAddress::V6([
            0x01, 0x13, 0xa9, 0xfa, 0xa5, 0xd3, 0xf1, 0x79, 0xbc, 0x25, 0xf4, 0xb5, 0xbe, 0xd2,
            0xb9, 0xd9,
        ]),
        port: 41287,
    };

    assert_eq!(
        XorMappedAddress::new(base_address, &TRANSACTION_ID).address,
        expected
    );
}

#[test]
fn test_xor_round_trip_v4() {
    let address = SocketAddress { ip: IpAddress::V4([10, 1, 2, 3]), port: 3478 };
    let once = XorMappedAddress::new(address, &TRANSACTION_ID).address;
    let twice = XorMappedAddress::new(once, &TRANSACTION_ID).address;
    assert_eq!(twice, address);
}

#[test]
fn test_xor_round_trip_v6() {
    let address = SocketAddress {
        ip: IpAddress::V6([
            0xfe, 0x80, 0, 0, 0, 0, 0, 0, 0x02, 0x11, 0x22, 0xff, 0xfe, 0x33, 0x44, 0x55,
        ]),
        port: 49152,
    };
    let once = XorMappedAddress::new(address, &TRANSACTION_ID).address;
    let twice = XorMappedAddress::new(once, &TRANSACTION_ID).address;
    assert_eq!(twice, address);
}

#[test]
fn test_mapped_address_bytes_v4() {
    let address = SocketAddress { ip: IpAddress::V4([127, 0, 0, 1]), port: 6969 };
    let bytes = MappedAddress::new(address).serialize();
    assert_eq!(bytes, [0x00, 0x01, 0x00, 0x08, 0x00, 0x01, 0x1b, 0x39, 127, 0, 0, 1]);
}

#[test]
fn test_mapped_address_bytes_v6() {
    let address = SocketAddress { ip: IpAddress::V6([0xab; 16]), port: 0x0102 };
    let bytes = MappedAddress::new(address).serialize();
    let mut expected = vec![0x00, 0x01, 0x00, 0x14, 0x00, 0x02, 0x01, 0x02];
    expected.extend_from_slice(&[0xab; 16]);
    assert_eq!(bytes, expected);
    assert_eq!(bytes.len() % 4, 0);
}

#[test]
fn test_error_code_bytes() {
    let attribute = ErrorCode::new(420, "abc".to_string());
    let bytes = attribute.serialize();
    // Type 0x0009, unpadded length 4 + 3, the 32-bit status code, the
    // phrase, then one zero byte of padding.
    assert_eq!(
        bytes,
        [0x00, 0x09, 0x00, 0x07, 0x00, 0x00, 0x01, 0xa4, b'a', b'b', b'c', 0x00]
    );
}

#[test]
fn test_error_code_padding() {
    for len in 0..9usize {
        let attribute = ErrorCode::new(400, "x".repeat(len));
        let bytes = attribute.serialize();
        assert_eq!(bytes.len() % 4, 0);
        assert_eq!(u16::from_be_bytes([bytes[2], bytes[3]]) as usize, 4 + len);
    }
}

#[test]
fn test_unknown_attributes_bytes() {
    let attribute = UnknownAttributes::new(vec![0x0001, 0x0002, 0x0003]);
    let bytes = attribute.serialize();
    // The length field records two bytes per code, unpadded; two zero
    // bytes pad the value to the next 4-byte boundary.
    assert_eq!(
        bytes,
        [0x00, 0x0a, 0x00, 0x06, 0x00, 0x01, 0x00, 0x02, 0x00, 0x03, 0x00, 0x00]
    );
}

#[test]
fn test_unknown_attributes_padding() {
    for count in 0..5usize {
        let codes: Vec<u16> = (0..count as u16).collect();
        let bytes = UnknownAttributes::new(codes).serialize();
        assert_eq!(bytes.len() % 4, 0);
    }
}

#[test]
fn test_xor_mapped_address_bytes_v4() {
    let address = SocketAddress { ip: IpAddress::V4([127, 0, 0, 1]), port: 6969 };
    let bytes = XorMappedAddress::new(address, &[
        0x1c, 0x36, 0x33, 0x45, 0xb9, 0xc2, 0xd2, 0xab, 0xb3, 0x76, 0x39, 0xfd,
    ])
    .serialize();
    assert_eq!(bytes, [0x00, 0x20, 0x00, 0x08, 0x00, 0x01, 0x3a, 0x2b, 0x5e, 0x12, 0xa4, 0x43]);
}
