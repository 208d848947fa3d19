//! Wire format of Counter messages:
//! `[msg_type: 1][src_eid: 4, big-endian][value: 32, big-endian (optional)]`.
use vstd::prelude::*;
use crate::bytes::{
    be_bytes, be_value, lemma_be_value_bound, lemma_be_value_of_bytes, lemma_pow256_values,
    push_be, read_be,
};
use crate::errors::{CounterError, DecodeError, Failure};
use crate::u256::{U256, U256Ext};

verus! {

/// The kinds of Counter message.
#[derive(Debug, Clone, Copy, PartialEq, Eq, Structural)]
pub enum MsgType {
    Vanilla,
    Composed,
    ABA,
    ComposedABA,
}

/// Offset of the source endpoint ID in a Counter message.
pub const SRC_EID_OFFSET: usize = 1;

/// Offset of the optional value in a Counter message.
pub const VALUE_OFFSET: usize = 5;

/// The byte that stands for a message type.
pub open spec fn msg_type_code(t: MsgType) -> u8 {
    match t {
        MsgType::Vanilla => 1,
        MsgType::Composed => 2,
        MsgType::ABA => 3,
        MsgType::ComposedABA => 4,
    }
}

/// The message type that a byte stands for, if any.
pub open spec fn msg_type_of(value: u8) -> Option<MsgType> {
    if value == 1 {
        Some(MsgType::Vanilla)
    } else if value == 2 {
        Some(MsgType::Composed)
    } else if value == 3 {
        Some(MsgType::ABA)
    } else if value == 4 {
        Some(MsgType::ComposedABA)
    } else {
        None
    }
}

impl MsgType {
    /// The message type that `value` stands for; `None` for anything but 1 to 4.
    pub fn from(value: u8) -> (r: Option<MsgType>)
        ensures
            r == msg_type_of(value),
    {
        match value {
            1 => Some(MsgType::Vanilla),
            2 => Some(MsgType::Composed),
            3 => Some(MsgType::ABA),
            4 => Some(MsgType::ComposedABA),
            _ => None,
        }
    }

    /// The byte that stands for this message type.
    pub fn code(self) -> (r: u8)
        ensures
            r == msg_type_code(self),
    {
        match self {
            MsgType::Vanilla => 1,
            MsgType::Composed => 2,
            MsgType::ABA => 3,
            MsgType::ComposedABA => 4,
        }
    }
}

/// The bytes of a message without value.
pub open spec fn spec_encode(msg_type: MsgType, src_eid: u32) -> Seq<u8> {
    seq![msg_type_code(msg_type)] + be_bytes(src_eid as nat, 4)
}

/// The bytes of a message carrying `value` as a 256-bit number.
pub open spec fn spec_encode_with_value(msg_type: MsgType, src_eid: u32, value: u32) -> Seq<u8> {
    spec_encode(msg_type, src_eid) + be_bytes(value as nat, 32)
}

/// The message type of `data`.
pub open spec fn spec_msg_type(data: Seq<u8>) -> Result<MsgType, DecodeError> {
    if data.len() == 0 {
        Err(DecodeError::EndOfInput)
    } else {
        match msg_type_of(data[0]) {
            Some(t) => Ok(t),
            None => Err(DecodeError::UnknownMsgType),
        }
    }
}

/// The source endpoint ID of `data`.
pub open spec fn spec_src_eid(data: Seq<u8>) -> Result<u32, DecodeError> {
    if data.len() < 5 {
        Err(DecodeError::EndOfInput)
    } else {
        Ok(be_value(data.subrange(1, 5)) as u32)
    }
}

/// The value that `data` asks for: zero when absent, else a 32-byte number that must fit in
/// an `i128`.
pub open spec fn spec_value(data: Seq<u8>) -> Result<i128, Failure> {
    if data.len() < 5 {
        Err(Failure::Decode(DecodeError::EndOfInput))
    } else if data.len() == 5 {
        Ok(0)
    } else if data.len() != 37 {
        Err(Failure::Decode(DecodeError::BadLength))
    } else if be_value(data.subrange(5, 37)) > i128::MAX {
        Err(Failure::Counter(CounterError::InvalidMsgValue))
    } else {
        Ok(be_value(data.subrange(5, 37)) as i128)
    }
}

/// Encodes a message of type `msg_type` from `src_eid`.
pub fn encode(msg_type: MsgType, src_eid: u32) -> (r: Vec<u8>)
    ensures
        r@ == spec_encode(msg_type, src_eid),
{
    proof {
        lemma_pow256_values();
    }
    let mut data: Vec<u8> = Vec::new();
    data.push(msg_type.code());
    push_be(&mut data, src_eid as u128, 4);
    assert(data@ =~= spec_encode(msg_type, src_eid));
    data
}

/// Encodes a message of type `msg_type` from `src_eid` that carries `value`.
pub fn encode_with_value(msg_type: MsgType, src_eid: u32, value: u32) -> (r: Vec<u8>)
    ensures
        r@ == spec_encode_with_value(msg_type, src_eid, value),
{
    let mut data = encode(msg_type, src_eid);
    let v = U256::from_u32(value).to_be_bytes();
    let mut i: usize = 0;
    while i < v.len()
        invariant
            i <= v@.len(),
            data@ == spec_encode(msg_type, src_eid) + v@.subrange(0, i as int),
        decreases v@.len() - i,
    {
        data.push(v[i]);
        i = i + 1;
        assert(data@ =~= spec_encode(msg_type, src_eid) + v@.subrange(0, i as int));
    }
    assert(v@.subrange(0, v@.len() as int) =~= v@);
    data
}

/// The message type of a message.
pub fn msg_type(data: &[u8]) -> (r: Result<MsgType, DecodeError>)
    ensures
        r == spec_msg_type(data@),
{
    if data.len() == 0 {
        return Err(DecodeError::EndOfInput);
    }
    match MsgType::from(data[0]) {
        Some(t) => Ok(t),
        None => Err(DecodeError::UnknownMsgType),
    }
}

/// The source endpoint ID of a message.
pub fn src_eid(data: &[u8]) -> (r: Result<u32, DecodeError>)
    ensures
        r == spec_src_eid(data@),
{
    if data.len() < VALUE_OFFSET {
        return Err(DecodeError::EndOfInput);
    }
    proof {
        lemma_pow256_values();
        lemma_be_value_bound(data@.subrange(1, 5));
    }
    Ok(read_be(data, SRC_EID_OFFSET, 4) as u32)
}

/// The value that a message asks the receiver to have been paid.
pub fn value(data: &[u8]) -> (r: Result<i128, Failure>)
    ensures
        r == spec_value(data@),
{
    if data.len() < VALUE_OFFSET {
        return Err(Failure::Decode(DecodeError::EndOfInput));
    }
    if data.len() == VALUE_OFFSET {
        return Ok(0);
    }
    let tail = crate::bytes::copy_range(data, VALUE_OFFSET, data.len());
    match U256::from_be_bytes(tail.as_slice()) {
        None => Err(Failure::Decode(DecodeError::BadLength)),
        Some(v) => match v.to_i128() {
            Some(x) => Ok(x),
            None => Err(Failure::Counter(CounterError::InvalidMsgValue)),
        },
    }
}

/// What a message encodes is what its readers return.
pub proof fn lemma_codec_roundtrip(msg_type: MsgType, src_eid: u32, value: u32)
    ensures
        spec_msg_type(spec_encode(msg_type, src_eid)) == Ok::<MsgType, DecodeError>(msg_type),
        spec_src_eid(spec_encode(msg_type, src_eid)) == Ok::<u32, DecodeError>(src_eid),
        spec_value(spec_encode(msg_type, src_eid)) == Ok::<i128, Failure>(0),
        spec_msg_type(spec_encode_with_value(msg_type, src_eid, value)) == Ok::<MsgType, DecodeError>(msg_type),
        spec_src_eid(spec_encode_with_value(msg_type, src_eid, value)) == Ok::<u32, DecodeError>(src_eid),
        spec_value(spec_encode_with_value(msg_type, src_eid, value)) == Ok::<i128, Failure>(value as i128),
{
    lemma_pow256_values();
    lemma_be_value_of_bytes(src_eid as nat, 4);
    crate::bytes::lemma_pow256_mono(4, 32);
    crate::bytes::lemma_pow256_mono(16, 32);
    lemma_be_value_of_bytes(value as nat, 32);
    let a = spec_encode(msg_type, src_eid);
    let b = spec_encode_with_value(msg_type, src_eid, value);
    assert(a.subrange(1, 5) =~= be_bytes(src_eid as nat, 4));
    assert(b.subrange(1, 5) =~= be_bytes(src_eid as nat, 4));
    assert(b.subrange(5, 37) =~= be_bytes(value as nat, 32));
    assert(a[0] == msg_type_code(msg_type));
    assert(b[0] == msg_type_code(msg_type));
}

} // verus!
