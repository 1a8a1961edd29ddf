//! The STUN attributes the server emits — ERROR-CODE, MAPPED-ADDRESS,
//! XOR-MAPPED-ADDRESS and UNKNOWN-ATTRIBUTES — and their binary
//! Type-Length-Value encoding, padded to 4-byte boundaries.

use vstd::prelude::*;
use vstd::slice::slice_to_vec;
use vstd::string::StrSliceExecFns;
use vstd::utf8::encode_utf8;

use crate::address::{IpAddress, SocketAddress};
use crate::message::MAGIC_COOKIE;
use crate::wire::{
    push_u16_be, push_u32_be, spec_pad_len, spec_padding, spec_u16_bytes, spec_u32_bytes,
};

verus! {

pub const ERROR_CODE: u16 = 0x0009;
pub const MAPPED_ADDRESS: u16 = 0x0001;
pub const UNKNOWN_ATTRIBUTES: u16 = 0x000A;
pub const XOR_MAPPED_ADDRESS: u16 = 0x0020;

/// The capability every STUN attribute offers: serialization to its padded
/// Type-Length-Value bytes.
pub trait Attribute {
    /// The stored type and length fields agree with the payload.
    spec fn wf(&self) -> bool;

    /// The padded Type-Length-Value bytes of this attribute.
    spec fn spec_serialized(&self) -> Seq<u8>;

    /// Serializes this attribute as `[type][length][value][padding]`.
    fn serialize(&self) -> (r: Vec<u8>)
        requires
            self.wf(),
        ensures
            r@ == self.spec_serialized(),
    ;
}

/// Appends the `(4 - length % 4) % 4` zero bytes that align a value of
/// `length` bytes to the next 4-byte boundary: a length already a multiple
/// of four gets none.
pub fn add_padding(length: u16, stun_attribute: &mut Vec<u8>)
    ensures
        final(stun_attribute)@ == old(stun_attribute)@ + spec_padding(length as int),
{
    let ghost prefix = stun_attribute@;
    if length % 4 != 0 {
        let pad: u16 = 4 - length % 4;
        let mut i: u16 = 0;
        while i < pad
            invariant
                i <= pad,
                pad == spec_pad_len(length as int),
                stun_attribute@ == prefix + Seq::new(i as nat, |j: int| 0u8),
            decreases pad - i,
        {
            stun_attribute.push(0);
            i = i + 1;
            proof {
                assert(stun_attribute@ =~= prefix + Seq::new(i as nat, |j: int| 0u8));
            }
        }
    }
    proof {
        assert(stun_attribute@ =~= prefix + spec_padding(length as int));
    }
}

/// A value of `length` bytes together with its padding ends on a 4-byte
/// boundary.
pub proof fn lemma_padded_length_aligned(length: int)
    requires
        length >= 0,
    ensures
        (length + spec_pad_len(length)) % 4 == 0,
{
}

/// The ERROR-CODE attribute: a 32-bit status code and a UTF-8 reason
/// phrase.
pub struct ErrorCode {
    pub type_: u16,
    pub length: u16,
    pub status_code: u32,
    pub reason_phrase: String,
}

impl ErrorCode {
    /// The UTF-8 bytes of the reason phrase.
    pub open spec fn spec_reason_bytes(&self) -> Seq<u8> {
        encode_utf8(self.reason_phrase@)
    }

    pub fn new(status_code: u32, reason_phrase: String) -> (r: Self)
        requires
            4 + encode_utf8(reason_phrase@).len() <= u16::MAX,
        ensures
            r.wf(),
            r.type_ == ERROR_CODE,
            r.length == 4 + encode_utf8(reason_phrase@).len(),
            r.status_code == status_code,
            r.reason_phrase@ == reason_phrase@,
    {
        let length: u16 = (4 + reason_phrase.as_str().len()) as u16;
        ErrorCode { type_: ERROR_CODE, length, status_code, reason_phrase }
    }
}

impl Attribute for ErrorCode {
    open spec fn wf(&self) -> bool {
        &&& self.type_ == ERROR_CODE
        &&& self.length == 4 + self.spec_reason_bytes().len()
    }

    /// Type and length fields, the 32-bit status code, the reason phrase
    /// bytes, then padding computed from the unpadded value length.
    open spec fn spec_serialized(&self) -> Seq<u8> {
        spec_u16_bytes(self.type_) + spec_u16_bytes(self.length) + spec_u32_bytes(self.status_code)
            + self.spec_reason_bytes() + spec_padding(self.length as int)
    }

    fn serialize(&self) -> (r: Vec<u8>) {
        let mut stun_attribute: Vec<u8> = Vec::new();
        push_u16_be(&mut stun_attribute, self.type_);
        push_u16_be(&mut stun_attribute, self.length);
        push_u32_be(&mut stun_attribute, self.status_code);
        let mut reason_bytes: Vec<u8> = self.reason_phrase.as_str().as_bytes_vec();
        stun_attribute.append(&mut reason_bytes);
        add_padding(self.length, &mut stun_attribute);
        proof {
            assert(stun_attribute@ =~= self.spec_serialized());
        }
        stun_attribute
    }
}

/// The value bytes shared by the two address attributes: behind the type
/// and length fields stand a zero byte and the family byte (together one
/// big-endian 16-bit field), the port, and the raw address octets.
pub open spec fn spec_address_attribute_bytes(
    type_: u16,
    length: u16,
    address: SocketAddress,
) -> Seq<u8> {
    spec_u16_bytes(type_) + spec_u16_bytes(length) + spec_u16_bytes(address.ip.spec_family())
        + spec_u16_bytes(address.port) + address.ip.spec_octets() + spec_padding(length as int)
}

/// Serializes the Type-Length-Value bytes of an address attribute.
fn serialize_address_attribute(type_: u16, length: u16, address: &SocketAddress) -> (r: Vec<u8>)
    ensures
        r@ == spec_address_attribute_bytes(type_, length, *address),
{
    let mut stun_attribute: Vec<u8> = Vec::new();
    push_u16_be(&mut stun_attribute, type_);
    push_u16_be(&mut stun_attribute, length);
    match &address.ip {
        IpAddress::V4(octets) => {
            push_u16_be(&mut stun_attribute, 0x01);
            push_u16_be(&mut stun_attribute, address.port);
            let mut raw: Vec<u8> = slice_to_vec(octets.as_slice());
            stun_attribute.append(&mut raw);
        },
        IpAddress::V6(octets) => {
            push_u16_be(&mut stun_attribute, 0x02);
            push_u16_be(&mut stun_attribute, address.port);
            let mut raw: Vec<u8> = slice_to_vec(octets.as_slice());
            stun_attribute.append(&mut raw);
        },
    }
    add_padding(length, &mut stun_attribute);
    proof {
        assert(stun_attribute@ =~= spec_address_attribute_bytes(type_, length, *address));
    }
    stun_attribute
}

/// The MAPPED-ADDRESS attribute: a transport address in the clear.
pub struct MappedAddress {
    pub type_: u16,
    pub length: u16,
    pub address: SocketAddress,
}

impl MappedAddress {
    pub fn new(address: SocketAddress) -> (r: Self)
        ensures
            r.wf(),
            r.type_ == MAPPED_ADDRESS,
            r.length == address.ip.spec_attribute_length(),
            r.address == address,
    {
        let len: u16 = match address.ip {
            IpAddress::V4(_) => 8,
            IpAddress::V6(_) => 20,
        };
        MappedAddress { type_: MAPPED_ADDRESS, length: len, address }
    }
}

impl Attribute for MappedAddress {
    open spec fn wf(&self) -> bool {
        &&& self.type_ == MAPPED_ADDRESS
        &&& self.length == self.address.ip.spec_attribute_length()
    }

    open spec fn spec_serialized(&self) -> Seq<u8> {
        spec_address_attribute_bytes(self.type_, self.length, self.address)
    }

    fn serialize(&self) -> (r: Vec<u8>) {
        serialize_address_attribute(self.type_, self.length, &self.address)
    }
}

/// The 128-bit XOR key of the XOR-MAPPED-ADDRESS attribute: the magic
/// cookie followed by the transaction id, most-significant byte first. An
/// IPv4 address uses only the first four bytes, the cookie itself.
pub open spec fn spec_xor_key(transaction_id: Seq<u8>) -> Seq<u8> {
    spec_u32_bytes(MAGIC_COOKIE) + transaction_id
}

/// Address octets XOR-ed byte by byte against the leading bytes of the key.
pub open spec fn spec_xor_octets(octets: Seq<u8>, key: Seq<u8>) -> Seq<u8>
    recommends
        octets.len() <= key.len(),
{
    Seq::new(octets.len(), |i: int| octets[i] ^ key[i])
}

/// A port XOR-ed against the most-significant 16 bits of the magic cookie.
pub open spec fn spec_xor_port(port: u16) -> u16 {
    port ^ ((MAGIC_COOKIE >> 16) as u16)
}

/// The XOR-MAPPED-ADDRESS attribute: the observed transport address,
/// stored and emitted already XOR-obfuscated.
pub struct XorMappedAddress {
    pub type_: u16,
    pub length: u16,
    pub address: SocketAddress,
}

impl XorMappedAddress {
    /// Builds the attribute from the observed address: the stored address
    /// holds the XOR-transformed port and octets. The transaction id must
    /// be exactly 12 bytes; that is the caller's contract.
    pub fn new(addr: SocketAddress, transaction_id: &[u8]) -> (r: Self)
        requires
            transaction_id@.len() == 12,
        ensures
            r.wf(),
            r.type_ == XOR_MAPPED_ADDRESS,
            r.length == addr.ip.spec_attribute_length(),
            r.address.port == spec_xor_port(addr.port),
            r.address.ip is V4 <==> addr.ip is V4,
            r.address.ip.spec_octets() == spec_xor_octets(
                addr.ip.spec_octets(),
                spec_xor_key(transaction_id@),
            ),
    {
        proof {
            assert(MAGIC_COOKIE >> 16 < 0x10000) by (bit_vector);
            assert((MAGIC_COOKIE >> 24) & 0xff == 0x21 && (MAGIC_COOKIE >> 16) & 0xff == 0x12 && (
            MAGIC_COOKIE >> 8) & 0xff == 0xa4 && MAGIC_COOKIE & 0xff == 0x42) by (bit_vector);
        }
        let xor_port: u16 = addr.port ^ ((MAGIC_COOKIE >> 16) as u16);
        match addr.ip {
            IpAddress::V4(octets) => {
                let value: [u8; 4] = [
                    octets[0] ^ 0x21,
                    octets[1] ^ 0x12,
                    octets[2] ^ 0xa4,
                    octets[3] ^ 0x42,
                ];
                proof {
                    assert(value@ =~= spec_xor_octets(
                        addr.ip.spec_octets(),
                        spec_xor_key(transaction_id@),
                    ));
                }
                XorMappedAddress {
                    type_: XOR_MAPPED_ADDRESS,
                    length: 8,
                    address: SocketAddress { ip: IpAddress::V4(value), port: xor_port },
                }
            },
            IpAddress::V6(octets) => {
                let value: [u8; 16] = [
                    octets[0] ^ 0x21,
                    octets[1] ^ 0x12,
                    octets[2] ^ 0xa4,
                    octets[3] ^ 0x42,
                    octets[4] ^ transaction_id[0],
                    octets[5] ^ transaction_id[1],
                    octets[6] ^ transaction_id[2],
                    octets[7] ^ transaction_id[3],
                    octets[8] ^ transaction_id[4],
                    octets[9] ^ transaction_id[5],
                    octets[10] ^ transaction_id[6],
                    octets[11] ^ transaction_id[7],
                    octets[12] ^ transaction_id[8],
                    octets[13] ^ transaction_id[9],
                    octets[14] ^ transaction_id[10],
                    octets[15] ^ transaction_id[11],
                ];
                proof {
                    assert(value@ =~= spec_xor_octets(
                        addr.ip.spec_octets(),
                        spec_xor_key(transaction_id@),
                    ));
                }
                XorMappedAddress {
                    type_: XOR_MAPPED_ADDRESS,
                    length: 20,
                    address: SocketAddress { ip: IpAddress::V6(value), port: xor_port },
                }
            },
        }
    }
}

impl Attribute for XorMappedAddress {
    open spec fn wf(&self) -> bool {
        &&& self.type_ == XOR_MAPPED_ADDRESS
        &&& self.length == self.address.ip.spec_attribute_length()
    }

    open spec fn spec_serialized(&self) -> Seq<u8> {
        spec_address_attribute_bytes(self.type_, self.length, self.address)
    }

    fn serialize(&self) -> (r: Vec<u8>) {
        serialize_address_attribute(self.type_, self.length, &self.address)
    }
}

/// The bytes of a sequence of 16-bit values, each big-endian.
pub open spec fn spec_u16s_bytes(values: Seq<u16>) -> Seq<u8>
    decreases values.len(),
{
    if values.len() == 0 {
        Seq::empty()
    } else {
        spec_u16_bytes(values[0]) + spec_u16s_bytes(values.drop_first())
    }
}

/// Encoding a concatenation of 16-bit values concatenates their encodings.
pub proof fn lemma_u16s_bytes_concat(s: Seq<u16>, t: Seq<u16>)
    ensures
        spec_u16s_bytes(s + t) == spec_u16s_bytes(s) + spec_u16s_bytes(t),
    decreases s.len(),
{
    if s.len() == 0 {
        assert(s + t =~= t);
        assert(spec_u16s_bytes(s) + spec_u16s_bytes(t) =~= spec_u16s_bytes(t));
    } else {
        assert((s + t).drop_first() =~= s.drop_first() + t);
        lemma_u16s_bytes_concat(s.drop_first(), t);
        assert(spec_u16s_bytes(s + t) =~= spec_u16s_bytes(s) + spec_u16s_bytes(t));
    }
}

/// The UNKNOWN-ATTRIBUTES attribute: the comprehension-required attribute
/// type codes the server did not understand, in order.
pub struct UnknownAttributes {
    pub type_: u16,
    pub length: u16,
    pub attributes: Vec<u16>,
}

impl UnknownAttributes {
    pub fn new(vec: Vec<u16>) -> (r: Self)
        requires
            2 * vec@.len() <= u16::MAX,
        ensures
            r.wf(),
            r.type_ == UNKNOWN_ATTRIBUTES,
            r.length == 2 * vec@.len(),
            r.attributes@ == vec@,
    {
        let length: u16 = (vec.len() * 2) as u16;
        UnknownAttributes { type_: UNKNOWN_ATTRIBUTES, length, attributes: vec }
    }
}

impl Attribute for UnknownAttributes {
    open spec fn wf(&self) -> bool {
        &&& self.type_ == UNKNOWN_ATTRIBUTES
        &&& self.length == 2 * self.attributes@.len()
    }

    open spec fn spec_serialized(&self) -> Seq<u8> {
        spec_u16_bytes(self.type_) + spec_u16_bytes(self.length) + spec_u16s_bytes(
            self.attributes@,
        ) + spec_padding(self.length as int)
    }

    fn serialize(&self) -> (r: Vec<u8>) {
        let mut stun_attribute: Vec<u8> = Vec::new();
        push_u16_be(&mut stun_attribute, self.type_);
        push_u16_be(&mut stun_attribute, self.length);
        let mut i: usize = 0;
        while i < self.attributes.len()
            invariant
                i <= self.attributes@.len(),
                stun_attribute@ == spec_u16_bytes(self.type_) + spec_u16_bytes(self.length)
                    + spec_u16s_bytes(self.attributes@.take(i as int)),
            decreases self.attributes@.len() - i,
        {
            push_u16_be(&mut stun_attribute, self.attributes[i]);
            i = i + 1;
            proof {
                let taken = self.attributes@.take(i as int);
                let prev = self.attributes@.take(i - 1);
                let last = self.attributes@[i - 1];
                let single = seq![last];
                assert(taken =~= prev + single);
                lemma_u16s_bytes_concat(prev, single);
                assert(single.drop_first() =~= Seq::<u16>::empty());
                assert(spec_u16s_bytes(single) == spec_u16_bytes(single[0]) + spec_u16s_bytes(
                    single.drop_first(),
                ));
                assert(spec_u16s_bytes(single) =~= spec_u16_bytes(last));
                assert(stun_attribute@ =~= spec_u16_bytes(self.type_) + spec_u16_bytes(
                    self.length,
                ) + spec_u16s_bytes(taken));
            }
        }
        proof {
            assert(self.attributes@.take(self.attributes@.len() as int) =~= self.attributes@);
        }
        add_padding(self.length, &mut stun_attribute);
        proof {
            assert(stun_attribute@ =~= self.spec_serialized());
        }
        stun_attribute
    }
}

/// The tagged sum of the four attribute kinds; serialization dispatches by
/// an exhaustive match.
pub enum AttributeEnum {
    ErrorCode(ErrorCode),
    MappedAddress(MappedAddress),
    XorMappedAddress(XorMappedAddress),
    UnknownAttributes(UnknownAttributes),
}

impl Attribute for AttributeEnum {
    open spec fn wf(&self) -> bool {
        match self {
            AttributeEnum::ErrorCode(a) => a.wf(),
            AttributeEnum::MappedAddress(a) => a.wf(),
            AttributeEnum::XorMappedAddress(a) => a.wf(),
            AttributeEnum::UnknownAttributes(a) => a.wf(),
        }
    }

    open spec fn spec_serialized(&self) -> Seq<u8> {
        match self {
            AttributeEnum::ErrorCode(a) => a.spec_serialized(),
            AttributeEnum::MappedAddress(a) => a.spec_serialized(),
            AttributeEnum::XorMappedAddress(a) => a.spec_serialized(),
            AttributeEnum::UnknownAttributes(a) => a.spec_serialized(),
        }
    }

    fn serialize(&self) -> (r: Vec<u8>) {
        match self {
            AttributeEnum::ErrorCode(a) => a.serialize(),
            AttributeEnum::MappedAddress(a) => a.serialize(),
            AttributeEnum::XorMappedAddress(a) => a.serialize(),
            AttributeEnum::UnknownAttributes(a) => a.serialize(),
        }
    }
}

/// Every well-formed attribute serializes to a whole number of 4-byte
/// words: the padding closes the value to the next boundary.
pub proof fn lemma_attribute_serialized_aligned(a: AttributeEnum)
    requires
        a.wf(),
    ensures
        a.spec_serialized().len() % 4 == 0,
{
    match a {
        AttributeEnum::ErrorCode(e) => {
            lemma_padded_length_aligned(e.length as int);
        },
        AttributeEnum::MappedAddress(m) => {
            lemma_padded_length_aligned(m.length as int);
        },
        AttributeEnum::XorMappedAddress(x) => {
            lemma_padded_length_aligned(x.length as int);
        },
        AttributeEnum::UnknownAttributes(u) => {
            lemma_u16s_bytes_len(u.attributes@);
            lemma_padded_length_aligned(u.length as int);
        },
    }
}

/// A sequence of 16-bit values encodes to two bytes per value.
pub proof fn lemma_u16s_bytes_len(values: Seq<u16>)
    ensures
        spec_u16s_bytes(values).len() == 2 * values.len(),
    decreases values.len(),
{
    if values.len() > 0 {
        lemma_u16s_bytes_len(values.drop_first());
    }
}

/// XOR-ing an already XOR-ed port with the key again recovers the port.
pub proof fn lemma_xor_port_round_trip(port: u16)
    ensures
        spec_xor_port(spec_xor_port(port)) == port,
{
    assert(port ^ ((MAGIC_COOKIE >> 16) as u16) ^ ((MAGIC_COOKIE >> 16) as u16) == port)
        by (bit_vector);
}

/// XOR-ing already XOR-ed octets with the same key again recovers the
/// octets.
pub proof fn lemma_xor_octets_round_trip(octets: Seq<u8>, key: Seq<u8>)
    requires
        octets.len() <= key.len(),
    ensures
        spec_xor_octets(spec_xor_octets(octets, key), key) == octets,
{
    let once = spec_xor_octets(octets, key);
    assert forall|i: int| 0 <= i < octets.len() implies spec_xor_octets(once, key)[i]
        == octets[i] by {
        let a = octets[i];
        let k = key[i];
        assert(a ^ k ^ k == a) by (bit_vector);
    };
    assert(spec_xor_octets(once, key) =~= octets);
}

/// Re-applying the XOR transform of the XOR-MAPPED-ADDRESS attribute to an
/// encoded port and address recovers the observed port and address, for
/// the 4-byte and the 16-byte address widths alike.
pub proof fn lemma_xor_transform_round_trip(address: SocketAddress, transaction_id: Seq<u8>)
    requires
        transaction_id.len() == 12,
    ensures
        spec_xor_port(spec_xor_port(address.port)) == address.port,
        spec_xor_octets(
            spec_xor_octets(address.ip.spec_octets(), spec_xor_key(transaction_id)),
            spec_xor_key(transaction_id),
        ) == address.ip.spec_octets(),
{
    lemma_xor_port_round_trip(address.port);
    lemma_xor_octets_round_trip(address.ip.spec_octets(), spec_xor_key(transaction_id));
}

} // verus!
