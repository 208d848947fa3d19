//! Wire formats of the OFT payload and of the compose message handed to a composer.
//!
//! OFT message:
//! `[send_to: 32][amount_sd: 8, big-endian][compose_from: 32 (optional)][compose_msg: rest (optional)]`
//!
//! Compose message:
//! `[nonce: 8][src_eid: 4][amount_ld: 16, two's complement][compose_from: 32][compose_msg: rest]`
use vstd::prelude::*;
use crate::bytes::{
    be_bytes, be_value, copy_range, i128_bits, i128_from_bits, i128_of_bits, i128_to_bits,
    lemma_be_bytes_of_value, lemma_be_value_bound, lemma_be_value_of_bytes,
    lemma_i128_bits_roundtrip, lemma_i128_of_bits_roundtrip, lemma_pow256_values, push_all,
    push_be, read_be, read_bytes32,
};
use crate::errors::DecodeError;

verus! {

/// Initiator address and payload for a cross-chain composed call.
#[derive(Clone, Debug, PartialEq, Eq)]
pub struct ComposeData {
    /// Address that initiated the compose call.
    pub from: [u8; 32],
    /// Compose message payload.
    pub msg: Vec<u8>,
}

/// An OFT transfer: recipient, amount in shared decimals and optional compose data.
#[derive(Clone, Debug, PartialEq, Eq)]
pub struct OFTMessage {
    /// Recipient address on the destination chain.
    pub send_to: [u8; 32],
    /// Amount to transfer in shared decimals.
    pub amount_sd: u64,
    /// Optional compose data for cross-chain composed calls.
    pub compose: Option<ComposeData>,
}

/// A compose message: the context of a received transfer and the payload to execute.
#[derive(Clone, Debug, PartialEq, Eq)]
pub struct OFTComposeMsg {
    /// Nonce of the cross-chain packet that carried the transfer.
    pub nonce: u64,
    /// Source endpoint ID where the transfer originated.
    pub src_eid: u32,
    /// Amount received in local decimals.
    pub amount_ld: i128,
    /// Address that initiated the compose call on the source chain.
    pub compose_from: [u8; 32],
    /// Custom payload for compose logic execution.
    pub compose_msg: Vec<u8>,
}

/// The mathematical content of a [`ComposeData`].
pub struct ComposeModel {
    pub from: Seq<u8>,
    pub msg: Seq<u8>,
}

/// The mathematical content of an [`OFTMessage`].
pub struct OFTMessageModel {
    pub send_to: Seq<u8>,
    pub amount_sd: u64,
    pub compose: Option<ComposeModel>,
}

/// The mathematical content of an [`OFTComposeMsg`].
pub struct OFTComposeModel {
    pub nonce: u64,
    pub src_eid: u32,
    pub amount_ld: i128,
    pub compose_from: Seq<u8>,
    pub compose_msg: Seq<u8>,
}

impl View for ComposeData {
    type V = ComposeModel;

    open spec fn view(&self) -> ComposeModel {
        ComposeModel { from: self.from@, msg: self.msg@ }
    }
}

impl View for OFTMessage {
    type V = OFTMessageModel;

    open spec fn view(&self) -> OFTMessageModel {
        OFTMessageModel {
            send_to: self.send_to@,
            amount_sd: self.amount_sd,
            compose: match self.compose {
                Some(c) => Some(c@),
                None => None,
            },
        }
    }
}

impl View for OFTComposeMsg {
    type V = OFTComposeModel;

    open spec fn view(&self) -> OFTComposeModel {
        OFTComposeModel {
            nonce: self.nonce,
            src_eid: self.src_eid,
            amount_ld: self.amount_ld,
            compose_from: self.compose_from@,
            compose_msg: self.compose_msg@,
        }
    }
}

/// Length of the fixed part of an OFT message: recipient and amount.
pub const OFT_MSG_HEADER_LEN: usize = 40;

/// Length of an OFT message with compose data but an empty compose payload.
pub const OFT_MSG_COMPOSE_HEADER_LEN: usize = 72;

/// Length of the fixed part of a compose message.
pub const OFT_COMPOSE_HEADER_LEN: usize = 60;

/// Well-formed models carry 32-byte addresses.
pub open spec fn oft_message_wf(m: OFTMessageModel) -> bool {
    &&& m.send_to.len() == 32
    &&& m.compose matches Some(c) ==> c.from.len() == 32
}

pub open spec fn compose_msg_wf(m: OFTComposeModel) -> bool {
    m.compose_from.len() == 32
}

/// The bytes of an OFT message.
pub open spec fn encode_oft_message(m: OFTMessageModel) -> Seq<u8> {
    let head = m.send_to + be_bytes(m.amount_sd as nat, 8);
    match m.compose {
        Some(c) => head + c.from + c.msg,
        None => head,
    }
}

/// The OFT message that `b` encodes, if any: 40 bytes carry no compose data, 72 or more do,
/// and every other length is refused.
pub open spec fn decode_oft_message(b: Seq<u8>) -> Option<OFTMessageModel> {
    if b.len() < 40 || (40 < b.len() && b.len() < 72) {
        None
    } else {
        Some(OFTMessageModel {
            send_to: b.subrange(0, 32),
            amount_sd: be_value(b.subrange(32, 40)) as u64,
            compose: if b.len() == 40 {
                None
            } else {
                Some(ComposeModel { from: b.subrange(40, 72), msg: b.subrange(72, b.len() as int) })
            },
        })
    }
}

/// The bytes of a compose message.
pub open spec fn encode_compose_msg(m: OFTComposeModel) -> Seq<u8> {
    be_bytes(m.nonce as nat, 8) + be_bytes(m.src_eid as nat, 4) + be_bytes(
        i128_bits(m.amount_ld as int),
        16,
    ) + m.compose_from + m.compose_msg
}

/// The compose message that `b` encodes, if it is at least 60 bytes long.
pub open spec fn decode_compose_msg(b: Seq<u8>) -> Option<OFTComposeModel> {
    if b.len() < 60 {
        None
    } else {
        Some(OFTComposeModel {
            nonce: be_value(b.subrange(0, 8)) as u64,
            src_eid: be_value(b.subrange(8, 12)) as u32,
            amount_ld: i128_of_bits(be_value(b.subrange(12, 28))) as i128,
            compose_from: b.subrange(28, 60),
            compose_msg: b.subrange(60, b.len() as int),
        })
    }
}

/// Decoding an encoded OFT message gives the message back.
pub proof fn lemma_oft_message_roundtrip(m: OFTMessageModel)
    requires
        oft_message_wf(m),
    ensures
        decode_oft_message(encode_oft_message(m)) == Some(m),
{
    lemma_pow256_values();
    lemma_be_value_of_bytes(m.amount_sd as nat, 8);
    let b = encode_oft_message(m);
    let head = m.send_to + be_bytes(m.amount_sd as nat, 8);
    assert(b.subrange(0, 32) =~= m.send_to);
    assert(b.subrange(32, 40) =~= be_bytes(m.amount_sd as nat, 8));
    match m.compose {
        Some(c) => {
            assert(b.subrange(40, 72) =~= c.from);
            assert(b.subrange(72, b.len() as int) =~= c.msg);
        },
        None => {},
    }
}

/// A byte string that decodes as an OFT message is the encoding of what it decodes to.
pub proof fn lemma_oft_message_bytes_roundtrip(b: Seq<u8>)
    requires
        decode_oft_message(b) is Some,
    ensures
        oft_message_wf(decode_oft_message(b).unwrap()),
        encode_oft_message(decode_oft_message(b).unwrap()) == b,
{
    lemma_pow256_values();
    lemma_be_value_bound(b.subrange(32, 40));
    lemma_be_bytes_of_value(b.subrange(32, 40));
    let m = decode_oft_message(b).unwrap();
    assert(m.amount_sd as nat == be_value(b.subrange(32, 40)));
    if b.len() == 40 {
        assert(encode_oft_message(m) =~= b);
    } else {
        assert(encode_oft_message(m) =~= b);
    }
}

/// Decoding an encoded compose message gives the message back.
pub proof fn lemma_compose_msg_roundtrip(m: OFTComposeModel)
    requires
        compose_msg_wf(m),
    ensures
        decode_compose_msg(encode_compose_msg(m)) == Some(m),
{
    lemma_pow256_values();
    lemma_be_value_of_bytes(m.nonce as nat, 8);
    lemma_be_value_of_bytes(m.src_eid as nat, 4);
    lemma_i128_bits_roundtrip(m.amount_ld as int);
    lemma_be_value_of_bytes(i128_bits(m.amount_ld as int), 16);
    let b = encode_compose_msg(m);
    assert(b.subrange(0, 8) =~= be_bytes(m.nonce as nat, 8));
    assert(b.subrange(8, 12) =~= be_bytes(m.src_eid as nat, 4));
    assert(b.subrange(12, 28) =~= be_bytes(i128_bits(m.amount_ld as int), 16));
    assert(b.subrange(28, 60) =~= m.compose_from);
    assert(b.subrange(60, b.len() as int) =~= m.compose_msg);
}

/// A byte string that decodes as a compose message is the encoding of what it decodes to.
pub proof fn lemma_compose_msg_bytes_roundtrip(b: Seq<u8>)
    requires
        decode_compose_msg(b) is Some,
    ensures
        compose_msg_wf(decode_compose_msg(b).unwrap()),
        encode_compose_msg(decode_compose_msg(b).unwrap()) == b,
{
    lemma_pow256_values();
    lemma_be_value_bound(b.subrange(0, 8));
    lemma_be_value_bound(b.subrange(8, 12));
    lemma_be_value_bound(b.subrange(12, 28));
    lemma_be_bytes_of_value(b.subrange(0, 8));
    lemma_be_bytes_of_value(b.subrange(8, 12));
    lemma_be_bytes_of_value(b.subrange(12, 28));
    lemma_i128_of_bits_roundtrip(be_value(b.subrange(12, 28)));
    let m = decode_compose_msg(b).unwrap();
    assert(m.nonce as nat == be_value(b.subrange(0, 8)));
    assert(m.src_eid as nat == be_value(b.subrange(8, 12)));
    assert(i128_bits(m.amount_ld as int) == be_value(b.subrange(12, 28)));
    assert(encode_compose_msg(m) =~= b);
}

impl OFTMessage {
    /// Encodes the message into bytes.
    pub fn encode(&self) -> (r: Vec<u8>)
        ensures
            r@ == encode_oft_message(self@),
    {
        proof {
            lemma_pow256_values();
        }
        let mut out: Vec<u8> = Vec::new();
        push_all(&mut out, &self.send_to);
        push_be(&mut out, self.amount_sd as u128, 8);
        match &self.compose {
            Some(c) => {
                push_all(&mut out, &c.from);
                push_all(&mut out, c.msg.as_slice());
            },
            None => {},
        }
        out
    }

    /// Decodes an OFT message; fails when the bytes end inside the header or inside the
    /// compose sender.
    pub fn decode(message: &[u8]) -> (r: Result<OFTMessage, DecodeError>)
        ensures
            match r {
                Ok(m) => decode_oft_message(message@) == Some(m@),
                Err(e) => decode_oft_message(message@) is None && e == DecodeError::EndOfInput,
            },
    {
        let len = message.len();
        if len < OFT_MSG_HEADER_LEN || (OFT_MSG_HEADER_LEN < len && len < OFT_MSG_COMPOSE_HEADER_LEN) {
            return Err(DecodeError::EndOfInput);
        }
        proof {
            lemma_pow256_values();
            lemma_be_value_bound(message@.subrange(32, 40));
        }
        let send_to = read_bytes32(message, 0);
        let amount_sd = read_be(message, 32, 8) as u64;
        let compose = if len > OFT_MSG_HEADER_LEN {
            let from = read_bytes32(message, 40);
            let msg = copy_range(message, 72, len);
            Some(ComposeData { from, msg })
        } else {
            None
        };
        let m = OFTMessage { send_to, amount_sd, compose };
        assert(decode_oft_message(message@) == Some(m@));
        Ok(m)
    }
}

impl OFTComposeMsg {
    /// Encodes the compose message into bytes.
    pub fn encode(&self) -> (r: Vec<u8>)
        ensures
            r@ == encode_compose_msg(self@),
    {
        proof {
            lemma_pow256_values();
        }
        let mut out: Vec<u8> = Vec::new();
        push_be(&mut out, self.nonce as u128, 8);
        push_be(&mut out, self.src_eid as u128, 4);
        push_be(&mut out, i128_to_bits(self.amount_ld), 16);
        push_all(&mut out, &self.compose_from);
        push_all(&mut out, self.compose_msg.as_slice());
        out
    }

    /// Decodes a compose message; fails when fewer than 60 bytes are given.
    pub fn decode(bytes: &[u8]) -> (r: Result<OFTComposeMsg, DecodeError>)
        ensures
            match r {
                Ok(m) => decode_compose_msg(bytes@) == Some(m@),
                Err(e) => decode_compose_msg(bytes@) is None && e == DecodeError::EndOfInput,
            },
    {
        let len = bytes.len();
        if len < OFT_COMPOSE_HEADER_LEN {
            return Err(DecodeError::EndOfInput);
        }
        proof {
            lemma_pow256_values();
            lemma_be_value_bound(bytes@.subrange(0, 8));
            lemma_be_value_bound(bytes@.subrange(8, 12));
        }
        let nonce = read_be(bytes, 0, 8) as u64;
        let src_eid = read_be(bytes, 8, 4) as u32;
        let amount_ld = i128_from_bits(read_be(bytes, 12, 16));
        let compose_from = read_bytes32(bytes, 28);
        let compose_msg = copy_range(bytes, 60, len);
        let m = OFTComposeMsg { nonce, src_eid, amount_ld, compose_from, compose_msg };
        assert(decode_compose_msg(bytes@) == Some(m@));
        Ok(m)
    }
}

} // verus!
