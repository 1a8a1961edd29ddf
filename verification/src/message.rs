//! The STUN message model: the fixed 20-byte header, the body as an ordered
//! sequence of attributes, and the message that serializes header then body
//! contiguously.

use vstd::prelude::*;
use vstd::slice::slice_to_vec;

use crate::attributes::{Attribute, AttributeEnum};
use crate::wire::{push_u16_be, push_u32_be, spec_u16_bytes, spec_u32_bytes};

verus! {

/// The fixed 32-bit value that identifies STUN messages on a shared port.
pub const MAGIC_COOKIE: u32 = 0x2112_A442;

/// The fixed 20-byte STUN message header: message type, body length, the
/// magic cookie, and the opaque 96-bit transaction id.
pub struct StunHeader {
    pub type_: u16,
    pub length: u16,
    pub transaction_id: [u8; 12],
}

impl StunHeader {
    /// The 20 header bytes: type, length, magic cookie and transaction id,
    /// every field big-endian.
    pub open spec fn spec_serialized(self) -> Seq<u8> {
        spec_u16_bytes(self.type_) + spec_u16_bytes(self.length) + spec_u32_bytes(MAGIC_COOKIE)
            + self.transaction_id@
    }

    /// Emits the header bytes: type, length, the fixed magic cookie, then
    /// the 12-byte transaction id, all fields big-endian.
    pub fn serialize(&self) -> (r: Vec<u8>)
        ensures
            r@ == self.spec_serialized(),
            r@.len() == 20,
    {
        let mut stun_header: Vec<u8> = Vec::new();
        push_u16_be(&mut stun_header, self.type_);
        push_u16_be(&mut stun_header, self.length);
        push_u32_be(&mut stun_header, MAGIC_COOKIE);
        let mut tid: Vec<u8> = slice_to_vec(self.transaction_id.as_slice());
        stun_header.append(&mut tid);
        proof {
            assert(stun_header@ =~= self.spec_serialized());
        }
        stun_header
    }

    pub fn new(type_: u16, length: u16, transaction_id: [u8; 12]) -> (r: Self)
        ensures
            r.type_ == type_,
            r.length == length,
            r.transaction_id == transaction_id,
    {
        StunHeader { type_, length, transaction_id }
    }
}

/// The bytes of a sequence of attributes: each attribute's padded
/// Type-Length-Value encoding, concatenated in order.
pub open spec fn spec_attributes_bytes(attrs: Seq<AttributeEnum>) -> Seq<u8>
    decreases attrs.len(),
{
    if attrs.len() == 0 {
        Seq::empty()
    } else {
        attrs[0].spec_serialized() + spec_attributes_bytes(attrs.drop_first())
    }
}

/// Serializing a concatenation of attribute sequences concatenates their
/// serializations.
pub proof fn lemma_attributes_bytes_concat(s: Seq<AttributeEnum>, t: Seq<AttributeEnum>)
    ensures
        spec_attributes_bytes(s + t) == spec_attributes_bytes(s) + spec_attributes_bytes(t),
    decreases s.len(),
{
    if s.len() == 0 {
        assert(s + t =~= t);
        assert(spec_attributes_bytes(s) + spec_attributes_bytes(t) =~= spec_attributes_bytes(t));
    } else {
        assert((s + t).drop_first() =~= s.drop_first() + t);
        lemma_attributes_bytes_concat(s.drop_first(), t);
        assert(spec_attributes_bytes(s + t) =~= spec_attributes_bytes(s) + spec_attributes_bytes(
            t,
        ));
    }
}

/// The serialized body of a single attribute is that attribute's bytes.
pub proof fn lemma_attributes_bytes_one(attrs: Seq<AttributeEnum>)
    requires
        attrs.len() == 1,
    ensures
        spec_attributes_bytes(attrs) == attrs[0].spec_serialized(),
{
    let tail = attrs.drop_first();
    assert(tail.len() == 0);
    assert(spec_attributes_bytes(tail) == Seq::<u8>::empty());
    assert(spec_attributes_bytes(attrs) == attrs[0].spec_serialized() + spec_attributes_bytes(
        tail,
    ));
    assert(spec_attributes_bytes(attrs) =~= attrs[0].spec_serialized());
}

/// The serialized body of an attribute pair is their bytes in order.
pub proof fn lemma_attributes_bytes_two(attrs: Seq<AttributeEnum>)
    requires
        attrs.len() == 2,
    ensures
        spec_attributes_bytes(attrs) == attrs[0].spec_serialized() + attrs[1].spec_serialized(),
{
    let tail = attrs.drop_first();
    assert(tail.len() == 1);
    assert(tail[0] == attrs[1]);
    lemma_attributes_bytes_one(tail);
    assert(spec_attributes_bytes(attrs) =~= attrs[0].spec_serialized()
        + attrs[1].spec_serialized());
}

/// The ordered attribute list that forms a STUN message body.
pub struct StunBody {
    pub attributes: Vec<AttributeEnum>,
}

impl StunBody {
    /// Every attribute in the body is well-formed.
    pub open spec fn wf(self) -> bool {
        forall|i: int| 0 <= i < self.attributes@.len() ==> (#[trigger] self.attributes@[i]).wf()
    }

    /// The body bytes: the attributes' padded encodings, in order.
    pub open spec fn spec_serialized(self) -> Seq<u8> {
        spec_attributes_bytes(self.attributes@)
    }

    /// Folds the attribute serializations in order.
    pub fn serialize(&self) -> (r: Vec<u8>)
        requires
            self.wf(),
        ensures
            r@ == self.spec_serialized(),
    {
        let mut vec: Vec<u8> = Vec::new();
        let mut i: usize = 0;
        while i < self.attributes.len()
            invariant
                i <= self.attributes@.len(),
                self.wf(),
                vec@ == spec_attributes_bytes(self.attributes@.take(i as int)),
            decreases self.attributes@.len() - i,
        {
            let mut attribute_bytes: Vec<u8> = self.attributes[i].serialize();
            vec.append(&mut attribute_bytes);
            i = i + 1;
            proof {
                let taken = self.attributes@.take(i as int);
                let prev = self.attributes@.take(i - 1);
                let single = seq![self.attributes@[i - 1]];
                assert(taken =~= prev + single);
                lemma_attributes_bytes_concat(prev, single);
                assert(single.drop_first() =~= Seq::<AttributeEnum>::empty());
                assert(spec_attributes_bytes(single) == single[0].spec_serialized()
                    + spec_attributes_bytes(single.drop_first()));
                assert(vec@ =~= spec_attributes_bytes(taken));
            }
        }
        proof {
            assert(self.attributes@.take(self.attributes@.len() as int) =~= self.attributes@);
        }
        vec
    }
}

/// A complete STUN message: header and body, serialized contiguously.
/// Constructed fresh per inbound request, serialized, then discarded.
pub struct StunMessage {
    pub stun_header: StunHeader,
    pub stun_body: StunBody,
}

impl StunMessage {
    /// The header's length field records exactly the serialized body
    /// length, and every attribute is well-formed.
    pub open spec fn wf(self) -> bool {
        &&& self.stun_body.wf()
        &&& self.stun_header.length == self.stun_body.spec_serialized().len()
    }

    /// The message bytes: the 20 header bytes, then the body bytes.
    pub open spec fn spec_serialized(self) -> Seq<u8> {
        self.stun_header.spec_serialized() + self.stun_body.spec_serialized()
    }

    /// Concatenates the serialized header and body.
    pub fn serialize(&self) -> (r: Vec<u8>)
        requires
            self.stun_body.wf(),
        ensures
            r@ == self.spec_serialized(),
            self.wf() ==> r@.len() == 20 + self.stun_header.length,
    {
        let mut vec: Vec<u8> = self.stun_header.serialize();
        let mut body: Vec<u8> = self.stun_body.serialize();
        vec.append(&mut body);
        vec
    }
}

} // verus!
