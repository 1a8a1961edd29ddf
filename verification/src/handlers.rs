//! Request validation and response construction: decides whether a raw
//! inbound buffer is a well-formed STUN binding request and builds the
//! success or error response for it.

use vstd::prelude::*;

use crate::address::{IpAddress, SocketAddress};
use crate::attributes::{
    spec_xor_key, spec_xor_octets, spec_xor_port, Attribute, AttributeEnum, ErrorCode,
    MappedAddress, XorMappedAddress, ERROR_CODE, MAPPED_ADDRESS, XOR_MAPPED_ADDRESS,
};
use crate::errors::{lemma_encode_utf8_len, lemma_reason_phrase_len, ErrorCodeEnum};
use crate::message::{
    lemma_attributes_bytes_one, lemma_attributes_bytes_two, StunBody, StunHeader, StunMessage,
    MAGIC_COOKIE,
};
use crate::wire::{read_u16_be, read_u32_be, spec_pad_len, spec_u16_of, spec_u32_of};

verus! {

pub const BINDING_REQUEST: u16 = 0x0001;
pub const BINDING_RESPONSE: u16 = 0x0101;
pub const BINDING_ERROR_RESPONSE: u16 = 0x0111;
pub const BINDING_INDICATION: u16 = 0x0011;

/// A well-formed inbound buffer: at least the 20 header bytes; the two
/// most-significant bits of the first byte zero, distinguishing STUN from
/// co-located protocols; the magic cookie at bytes 4 to 8; and a message
/// type of Binding Request or Binding Indication.
pub open spec fn spec_valid(b: Seq<u8>) -> bool {
    &&& b.len() >= 20
    &&& b[0] < 64
    &&& spec_u32_of(b[4], b[5], b[6], b[7]) == MAGIC_COOKIE
    &&& (spec_u16_of(b[0], b[1]) == BINDING_REQUEST || spec_u16_of(b[0], b[1])
        == BINDING_INDICATION)
}

/// Decides whether the buffer is a well-formed binding request.
pub fn check_validity(stun_message: &[u8]) -> (r: bool)
    ensures
        r == spec_valid(stun_message@),
{
    if stun_message.len() < 20 {
        return false;
    }
    if stun_message[0] >= 64 {
        return false;
    }
    if read_u32_be(stun_message, 4) != MAGIC_COOKIE {
        return false;
    }
    let type_: u16 = read_u16_be(stun_message, 0);
    if type_ != BINDING_REQUEST && type_ != BINDING_INDICATION {
        return false;
    }
    true
}

/// The transaction id of an inbound buffer: bytes 8 to 20, any byte past
/// the end of a short buffer read as zero (such a buffer is rejected and
/// answered with an error response).
pub open spec fn spec_transaction_id(b: Seq<u8>) -> Seq<u8> {
    Seq::new(12, |i: int| if 8 + i < b.len() { b[8 + i] } else { 0u8 })
}

/// One byte of the response transaction id.
fn transaction_id_byte(stun_message: &[u8], i: usize) -> (r: u8)
    requires
        i < 12,
    ensures
        r == spec_transaction_id(stun_message@)[i as int],
{
    if 8 + i < stun_message.len() {
        stun_message[8 + i]
    } else {
        0
    }
}

/// Copies the transaction id out of the inbound buffer.
fn read_transaction_id(stun_message: &[u8]) -> (r: [u8; 12])
    ensures
        r@ == spec_transaction_id(stun_message@),
{
    let r: [u8; 12] = [
        transaction_id_byte(stun_message, 0),
        transaction_id_byte(stun_message, 1),
        transaction_id_byte(stun_message, 2),
        transaction_id_byte(stun_message, 3),
        transaction_id_byte(stun_message, 4),
        transaction_id_byte(stun_message, 5),
        transaction_id_byte(stun_message, 6),
        transaction_id_byte(stun_message, 7),
        transaction_id_byte(stun_message, 8),
        transaction_id_byte(stun_message, 9),
        transaction_id_byte(stun_message, 10),
        transaction_id_byte(stun_message, 11),
    ];
    proof {
        assert(r@ =~= spec_transaction_id(stun_message@));
    }
    r
}

/// The success response to a valid binding request: type Binding Response,
/// the request's transaction id, and exactly an XOR-MAPPED-ADDRESS and a
/// MAPPED-ADDRESS, both built from the observed peer address.
pub open spec fn spec_is_success_response(
    r: StunMessage,
    b: Seq<u8>,
    address: SocketAddress,
) -> bool {
    &&& r.wf()
    &&& r.stun_header.type_ == BINDING_RESPONSE
    &&& r.stun_header.transaction_id@ == spec_transaction_id(b)
    &&& r.stun_body.attributes@.len() == 2
    &&& r.stun_body.attributes@[0] matches AttributeEnum::XorMappedAddress(x) && {
        &&& x.type_ == XOR_MAPPED_ADDRESS
        &&& x.length == address.ip.spec_attribute_length()
        &&& x.address.port == spec_xor_port(address.port)
        &&& (x.address.ip is V4 <==> address.ip is V4)
        &&& x.address.ip.spec_octets() == spec_xor_octets(
            address.ip.spec_octets(),
            spec_xor_key(spec_transaction_id(b)),
        )
    }
    &&& r.stun_body.attributes@[1] matches AttributeEnum::MappedAddress(m) && {
        &&& m.type_ == MAPPED_ADDRESS
        &&& m.length == address.ip.spec_attribute_length()
        &&& m.address == address
    }
}

/// The error response to an invalid buffer: type Binding Error Response,
/// the buffer's transaction id bytes, and a single ERROR-CODE attribute
/// carrying 400 Bad Request with its RFC reason phrase.
pub open spec fn spec_is_error_response(r: StunMessage, b: Seq<u8>) -> bool {
    &&& r.wf()
    &&& r.stun_header.type_ == BINDING_ERROR_RESPONSE
    &&& r.stun_header.transaction_id@ == spec_transaction_id(b)
    &&& r.stun_body.attributes@.len() == 1
    &&& r.stun_body.attributes@[0] matches AttributeEnum::ErrorCode(e) && {
        &&& e.type_ == ERROR_CODE
        &&& e.status_code == ErrorCodeEnum::BadRequest.spec_status_code()
        &&& e.reason_phrase@ == ErrorCodeEnum::BadRequest.spec_reason_phrase()
    }
}

/// Inspects a raw inbound buffer and produces the response: a binding
/// success response carrying the observed peer address when the buffer is
/// a well-formed binding request, and a 400 Bad Request error response
/// otherwise. The transaction id always round-trips from request to
/// response, and the header's length field always records the serialized
/// body length exactly.
pub fn handle_message(stun_message: &[u8], address: SocketAddress) -> (r: StunMessage)
    ensures
        r.wf(),
        r.stun_header.transaction_id@ == spec_transaction_id(stun_message@),
        stun_message@.len() >= 20 ==> r.stun_header.transaction_id@ == stun_message@.subrange(
            8,
            20,
        ),
        spec_valid(stun_message@) ==> spec_is_success_response(r, stun_message@, address),
        !spec_valid(stun_message@) ==> spec_is_error_response(r, stun_message@),
{
    let transaction_id: [u8; 12] = read_transaction_id(stun_message);
    proof {
        if stun_message@.len() >= 20 {
            assert(spec_transaction_id(stun_message@) =~= stun_message@.subrange(8, 20));
        }
    }
    if !check_validity(stun_message) {
        let bad_request = ErrorCodeEnum::BadRequest;
        let reason: &str = bad_request.reason_phrase();
        proof {
            lemma_reason_phrase_len(ErrorCodeEnum::BadRequest);
            lemma_encode_utf8_len(ErrorCodeEnum::BadRequest.spec_reason_phrase());
        }
        let error_attribute = ErrorCode::new(bad_request.status_code(), reason.to_owned());
        let stun_body = StunBody { attributes: vec![AttributeEnum::ErrorCode(error_attribute)] };
        proof {
            let attrs = stun_body.attributes@;
            assert(attrs.len() == 1);
            lemma_attributes_bytes_one(attrs);
            let length = error_attribute.length as int;
            assert(0 <= spec_pad_len(length) < 4);
            assert(stun_body.spec_serialized().len() <= 8 + 4096 + 3);
        }
        let body_bytes: Vec<u8> = stun_body.serialize();
        let body_len: usize = body_bytes.len();
        return StunMessage {
            stun_header: StunHeader::new(BINDING_ERROR_RESPONSE, body_len as u16, transaction_id),
            stun_body,
        };
    }
    let xor_mapped = XorMappedAddress::new(address, transaction_id.as_slice());
    let mapped = MappedAddress::new(address);
    let stun_body = StunBody {
        attributes: vec![
            AttributeEnum::XorMappedAddress(xor_mapped),
            AttributeEnum::MappedAddress(mapped),
        ],
    };
    proof {
        let attrs = stun_body.attributes@;
        assert(attrs.len() == 2);
        lemma_attributes_bytes_two(attrs);
        match address.ip {
            IpAddress::V4(octets) => {
                assert(octets@.len() == 4);
            },
            IpAddress::V6(octets) => {
                assert(octets@.len() == 16);
            },
        }
        assert(xor_mapped.address.ip.spec_octets().len() == address.ip.spec_octets().len());
        assert(0 <= spec_pad_len(xor_mapped.length as int) < 4);
        assert(0 <= spec_pad_len(mapped.length as int) < 4);
        assert(stun_body.spec_serialized().len() <= 56);
    }
    let body_bytes: Vec<u8> = stun_body.serialize();
    let body_len: usize = body_bytes.len();
    StunMessage {
        stun_header: StunHeader::new(BINDING_RESPONSE, body_len as u16, transaction_id),
        stun_body,
    }
}

/// Responses cannot cross peers: a success response embeds the address of
/// the request it answers, so the responses to requests from two different
/// peers carry two different MAPPED-ADDRESS attributes, whatever order the
/// requests were served in.
pub proof fn lemma_no_cross_talk(
    r1: StunMessage,
    b1: Seq<u8>,
    a1: SocketAddress,
    r2: StunMessage,
    b2: Seq<u8>,
    a2: SocketAddress,
)
    requires
        spec_is_success_response(r1, b1, a1),
        spec_is_success_response(r2, b2, a2),
        a1 != a2,
    ensures
        r1.stun_body.attributes@[1] matches AttributeEnum::MappedAddress(m1) && m1.address == a1,
        r2.stun_body.attributes@[1] matches AttributeEnum::MappedAddress(m2) && m2.address == a2,
        r1.stun_body.attributes@[1] != r2.stun_body.attributes@[1],
{
}

} // verus!
