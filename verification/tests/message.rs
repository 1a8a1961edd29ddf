use stun_server::address::{IpAddress, SocketAddress};
use stun_server::attributes::{Attribute, AttributeEnum, MappedAddress, UnknownAttributes};
use stun_server::message::{StunBody, StunHeader, StunMessage};

#[test]
fn message_test() {
    assert_eq!(1, 1);
}

#[test]
fn test_header_bytes() {
    let transaction_id: [u8; 12] = [1, 2, 3, 4, 5, 6, 7, 8, 9, 10, 11, 12];
    let header = StunHeader::new(0x0101, 0x0018, transaction_id);
    let bytes = header.serialize();
    assert_eq!(
        bytes,
        [0x01, 0x01, 0x00, 0x18, 0x21, 0x12, 0xa4, 0x42, 1, 2, 3, 4, 5, 6, 7, 8, 9, 10, 11, 12]
    );
}

#[test]
fn test_body_concatenates_attributes_in_order() {
    let first = MappedAddress::new(SocketAddress { ip: IpAddress::V4([1, 2, 3, 4]), port: 5 });
    let second = UnknownAttributes::new(vec![0x0006]);
    let expected: Vec<u8> = [first.serialize(), second.serialize()].concat();

    let body = StunBody {
        attributes: vec![
            AttributeEnum::MappedAddress(first),
            AttributeEnum::UnknownAttributes(second),
        ],
    };
    assert_eq!(body.serialize(), expected);
}

#[test]
fn test_message_serializes_header_then_body() {
    let mapped = MappedAddress::new(SocketAddress { ip: IpAddress::V4([9, 8, 7, 6]), port: 80 });
    let body = StunBody { attributes: vec![AttributeEnum::MappedAddress(mapped)] };
    let body_bytes = body.serialize();
    let header = StunHeader::new(0x0101, body_bytes.len() as u16, [0; 12]);
    let header_bytes = header.serialize();

    let message = StunMessage { stun_header: header, stun_body: body };
    let bytes = message.serialize();
    assert_eq!(bytes.len(), 20 + body_bytes.len());
    assert_eq!(&bytes[..20], header_bytes.as_slice());
    assert_eq!(&bytes[20..], body_bytes.as_slice());
}
