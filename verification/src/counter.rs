//! The Counter OApp as a state machine: what each inbound message, compose call and
//! increment does to its counters and nonces, and which message it sends in turn.
use vstd::prelude::*;
use crate::bytes::bytes32_eq;
use crate::counter_codec::{
    MsgType, msg_type_code, encode, encode_with_value, msg_type, spec_encode, spec_encode_with_value,
    spec_msg_type, spec_src_eid, spec_value, src_eid,
};
use crate::counter_options::{executor_lz_receive_option, spec_executor_lz_receive_option};
use crate::errors::{CounterError, DecodeError, Failure};
use crate::oapp::Origin;

verus! {

/// Gas limit of the `lz_receive` option on messages the Counter sends back.
pub const RESPONSE_GAS_LIMIT: u128 = 200000;

/// Value that the Counter asks for on the Vanilla reply to an ABA message.
pub const ABA_RESPONSE_VALUE: u32 = 10;

/// A write of a per-endpoint counter.
#[derive(Clone, Copy, Debug, PartialEq, Eq)]
pub struct EidCount {
    pub eid: u32,
    pub count: u64,
}

/// A write of the highest nonce received on a path.
#[derive(Clone, Copy, Debug, PartialEq, Eq)]
pub struct PathNonce {
    pub eid: u32,
    pub sender: [u8; 32],
    pub nonce: u64,
}

/// The Counter's storage. The keyed entries are kept as logs of writes in which the latest
/// write of a key wins and an unwritten key reads 0.
pub struct Counter {
    pub eid: u32,
    pub ordered_nonce: bool,
    pub count: u64,
    pub composed_count: u64,
    inbound: Vec<EidCount>,
    outbound: Vec<EidCount>,
    max_received: Vec<PathNonce>,
}

/// What the Counter asks the endpoint to do after a call.
#[derive(Clone, Debug, PartialEq, Eq)]
pub enum CounterAction {
    /// Nothing more.
    Nothing,
    /// Queue `message` as a compose message to the Counter itself.
    SendCompose(Vec<u8>),
    /// Send `message` with `options` to `dst_eid`, paying `native_fee` from the Counter.
    Send { dst_eid: u32, message: Vec<u8>, options: Vec<u8>, native_fee: i128 },
}

/// The mathematical content of a [`CounterAction`].
pub enum ActionModel {
    Nothing,
    SendCompose(Seq<u8>),
    Send { dst_eid: u32, message: Seq<u8>, options: Seq<u8>, native_fee: i128 },
}

impl View for CounterAction {
    type V = ActionModel;

    open spec fn view(&self) -> ActionModel {
        match self {
            CounterAction::Nothing => ActionModel::Nothing,
            CounterAction::SendCompose(m) => ActionModel::SendCompose(m@),
            CounterAction::Send { dst_eid, message, options, native_fee } => ActionModel::Send {
                dst_eid: *dst_eid,
                message: message@,
                options: options@,
                native_fee: *native_fee,
            },
        }
    }
}

/// The Counter's storage as a mathematical value.
pub struct CounterModel {
    pub eid: u32,
    pub ordered_nonce: bool,
    pub count: u64,
    pub composed_count: u64,
    pub inbound: Map<u32, u64>,
    pub outbound: Map<u32, u64>,
    pub max_received_nonce: Map<(u32, Seq<u8>), u64>,
}

/// The value of `eid` in a log of writes: the latest write, or 0.
pub open spec fn count_of(log: Seq<EidCount>, eid: u32) -> u64
    decreases log.len(),
{
    if log.len() == 0 {
        0
    } else if log.last().eid == eid {
        log.last().count
    } else {
        count_of(log.drop_last(), eid)
    }
}

/// The highest nonce of a path in a log of writes: the latest write, or 0.
pub open spec fn nonce_of(log: Seq<PathNonce>, eid: u32, sender: Seq<u8>) -> u64
    decreases log.len(),
{
    if log.len() == 0 {
        0
    } else if log.last().eid == eid && log.last().sender@ == sender {
        log.last().nonce
    } else {
        nonce_of(log.drop_last(), eid, sender)
    }
}

pub open spec fn counts_map(log: Seq<EidCount>) -> Map<u32, u64> {
    Map::new(|k: u32| true, |k: u32| count_of(log, k))
}

pub open spec fn nonces_map(log: Seq<PathNonce>) -> Map<(u32, Seq<u8>), u64> {
    Map::new(|k: (u32, Seq<u8>)| true, |k: (u32, Seq<u8>)| nonce_of(log, k.0, k.1))
}

impl View for Counter {
    type V = CounterModel;

    closed spec fn view(&self) -> CounterModel {
        CounterModel {
            eid: self.eid,
            ordered_nonce: self.ordered_nonce,
            count: self.count,
            composed_count: self.composed_count,
            inbound: counts_map(self.inbound@),
            outbound: counts_map(self.outbound@),
            max_received_nonce: nonces_map(self.max_received@),
        }
    }
}

/// The model of a freshly deployed Counter on endpoint `eid`.
pub open spec fn initial_model(eid: u32) -> CounterModel {
    CounterModel {
        eid,
        ordered_nonce: false,
        count: 0,
        composed_count: 0,
        inbound: Map::new(|k: u32| true, |k: u32| 0u64),
        outbound: Map::new(|k: u32| true, |k: u32| 0u64),
        max_received_nonce: Map::new(|k: (u32, Seq<u8>)| true, |k: (u32, Seq<u8>)| 0u64),
    }
}

/// The nonce the executor must deliver next on a path: one past the highest received in
/// ordered mode, 0 (no ordering) otherwise.
pub open spec fn spec_next_nonce(s: CounterModel, src_eid: u32, sender: Seq<u8>) -> Result<
    u64,
    Failure,
> {
    if s.ordered_nonce {
        let cur = s.max_received_nonce[(src_eid, sender)];
        if cur == u64::MAX {
            Err(Failure::Overflow)
        } else {
            Ok((cur + 1) as u64)
        }
    } else {
        Ok(0)
    }
}

/// Nonce bookkeeping of an inbound message: in ordered mode the nonce must be the next one;
/// the highest nonce seen is raised in any mode.
pub open spec fn spec_accept_nonce(s: CounterModel, origin: Origin) -> Result<CounterModel, Failure> {
    let key = (origin.src_eid, origin.sender@);
    let cur = s.max_received_nonce[key];
    if s.ordered_nonce && cur == u64::MAX {
        Err(Failure::Overflow)
    } else if s.ordered_nonce && origin.nonce != cur + 1 {
        Err(Failure::Counter(CounterError::OAppInvalidNonce))
    } else {
        Ok(
            CounterModel {
                max_received_nonce: s.max_received_nonce.insert(
                    key,
                    if origin.nonce > cur { origin.nonce } else { cur },
                ),
                ..s
            },
        )
    }
}

/// The value check of an inbound or composed message: the value received must cover what the
/// message asks for.
pub open spec fn spec_check_value(message: Seq<u8>, value: i128) -> Result<(), Failure> {
    match spec_value(message) {
        Err(e) => Err(e),
        Ok(expected) => if value < expected {
            Err(Failure::Counter(CounterError::InsufficientValue))
        } else {
            Ok(())
        },
    }
}

/// `s` with `outbound[eid]` raised by one, or `Overflow`.
pub open spec fn bump_outbound(s: CounterModel, eid: u32) -> Result<CounterModel, Failure> {
    if s.outbound[eid] == u64::MAX {
        Err(Failure::Overflow)
    } else {
        Ok(CounterModel { outbound: s.outbound.insert(eid, (s.outbound[eid] + 1) as u64), ..s })
    }
}

/// Handling of an inbound message that the endpoint delivered with `value`: accept the
/// nonce, count the message, then act on its type.
pub open spec fn spec_lz_receive(
    s: CounterModel,
    origin: Origin,
    message: Seq<u8>,
    value: i128,
) -> Result<(CounterModel, ActionModel), Failure> {
    match spec_accept_nonce(s, origin) {
        Err(e) => Err(e),
        Ok(s1) => if s1.count == u64::MAX || s1.inbound[origin.src_eid] == u64::MAX {
            Err(Failure::Overflow)
        } else {
            let s2 = CounterModel {
                count: (s1.count + 1) as u64,
                inbound: s1.inbound.insert(
                    origin.src_eid,
                    (s1.inbound[origin.src_eid] + 1) as u64,
                ),
                ..s1
            };
            match spec_msg_type(message) {
                Err(e) => Err(Failure::Decode(e)),
                Ok(MsgType::Vanilla) => match spec_check_value(message, value) {
                    Err(e) => Err(e),
                    Ok(()) => Ok((s2, ActionModel::Nothing)),
                },
                Ok(MsgType::Composed) => Ok((s2, ActionModel::SendCompose(message))),
                Ok(MsgType::ComposedABA) => Ok((s2, ActionModel::SendCompose(message))),
                Ok(MsgType::ABA) => match spec_check_value(message, value) {
                    Err(e) => Err(e),
                    Ok(()) => match bump_outbound(s2, origin.src_eid) {
                        Err(e) => Err(e),
                        Ok(s3) => Ok(
                            (
                                s3,
                                ActionModel::Send {
                                    dst_eid: origin.src_eid,
                                    message: spec_encode_with_value(
                                        MsgType::Vanilla,
                                        s.eid,
                                        ABA_RESPONSE_VALUE,
                                    ),
                                    options: spec_executor_lz_receive_option(
                                        RESPONSE_GAS_LIMIT,
                                        ABA_RESPONSE_VALUE as u128,
                                    ),
                                    native_fee: value,
                                },
                            ),
                        ),
                    },
                },
            }
        },
    }
}

/// Handling of a compose message delivered with `value`: only composed types are accepted;
/// the value must cover what the message asks for; a ComposedABA message is answered with a
/// Vanilla message to its source.
pub open spec fn spec_lz_compose(s: CounterModel, message: Seq<u8>, value: i128) -> Result<
    (CounterModel, ActionModel),
    Failure,
> {
    match spec_msg_type(message) {
        Err(e) => Err(Failure::Decode(e)),
        Ok(t) => if t != MsgType::Composed && t != MsgType::ComposedABA {
            Err(Failure::Counter(CounterError::InvalidMsgType))
        } else {
            match spec_check_value(message, value) {
                Err(e) => Err(e),
                Ok(()) => if s.composed_count == u64::MAX {
                    Err(Failure::Overflow)
                } else {
                    let s1 = CounterModel { composed_count: (s.composed_count + 1) as u64, ..s };
                    if t == MsgType::ComposedABA {
                        match spec_src_eid(message) {
                            Err(e) => Err(Failure::Decode(e)),
                            Ok(src) => match bump_outbound(s1, src) {
                                Err(e) => Err(e),
                                Ok(s2) => Ok(
                                    (
                                        s2,
                                        ActionModel::Send {
                                            dst_eid: src,
                                            message: spec_encode(MsgType::Vanilla, s.eid),
                                            options: spec_executor_lz_receive_option(
                                                RESPONSE_GAS_LIMIT,
                                                0,
                                            ),
                                            native_fee: value,
                                        },
                                    ),
                                ),
                            },
                        }
                    } else {
                        Ok((s1, ActionModel::Nothing))
                    }
                },
            }
        },
    }
}

/// The message type that a `u32` argument selects: its low byte must be 1 to 4.
pub open spec fn spec_msg_type_arg(msg_type: u32) -> Result<MsgType, Failure> {
    match crate::counter_codec::msg_type_of(msg_type as u8) {
        Some(t) => Ok(t),
        None => Err(Failure::Decode(DecodeError::UnknownMsgType)),
    }
}

/// An increment towards `dst_eid`: the outbound count rises and a message of the chosen type
/// from this endpoint is sent.
pub open spec fn spec_increment(s: CounterModel, dst_eid: u32, msg_type: u32) -> Result<
    (CounterModel, Seq<u8>),
    Failure,
> {
    match bump_outbound(s, dst_eid) {
        Err(e) => Err(e),
        Ok(s1) => match spec_msg_type_arg(msg_type) {
            Err(e) => Err(e),
            Ok(t) => Ok((s1, spec_encode(t, s.eid))),
        },
    }
}

/// Skipping an inbound nonce raises the highest received nonce of the path by one in
/// ordered mode and changes nothing otherwise.
pub open spec fn spec_skip_inbound_nonce(s: CounterModel, src_eid: u32, sender: Seq<u8>) -> Result<
    CounterModel,
    Failure,
> {
    if s.ordered_nonce {
        let cur = s.max_received_nonce[(src_eid, sender)];
        if cur == u64::MAX {
            Err(Failure::Overflow)
        } else {
            Ok(
                CounterModel {
                    max_received_nonce: s.max_received_nonce.insert(
                        (src_eid, sender),
                        (cur + 1) as u64,
                    ),
                    ..s
                },
            )
        }
    } else {
        Ok(s)
    }
}

/// In ordered mode an accepted message carries exactly the next nonce of its path, and the
/// path's next nonce then moves one past it.
pub proof fn law_ordered_delivery(s: CounterModel, origin: Origin, message: Seq<u8>, value: i128)
    requires
        s.ordered_nonce,
        spec_lz_receive(s, origin, message, value) is Ok,
    ensures
        spec_next_nonce(s, origin.src_eid, origin.sender@) == Ok::<u64, Failure>(origin.nonce),
        ({
            let s2 = spec_lz_receive(s, origin, message, value).unwrap().0;
            &&& s2.max_received_nonce[(origin.src_eid, origin.sender@)] == origin.nonce
            &&& origin.nonce < u64::MAX ==> spec_next_nonce(s2, origin.src_eid, origin.sender@)
                == Ok::<u64, Failure>((origin.nonce + 1) as u64)
        }),
{
}

/// In ordered mode a message whose nonce is not above the highest received one is refused.
pub proof fn law_ordered_rejects_replay(s: CounterModel, origin: Origin, message: Seq<u8>, value: i128)
    requires
        s.ordered_nonce,
        origin.nonce <= s.max_received_nonce[(origin.src_eid, origin.sender@)],
    ensures
        spec_lz_receive(s, origin, message, value) is Err,
{
}

/// Without ordering the next nonce is always 0.
pub proof fn law_unordered_next_nonce(s: CounterModel, src_eid: u32, sender: Seq<u8>)
    requires
        !s.ordered_nonce,
    ensures
        spec_next_nonce(s, src_eid, sender) == Ok::<u64, Failure>(0),
{
}

/// The highest received nonce of every path never decreases, whatever is received or skipped.
pub proof fn law_nonces_never_decrease(
    s: CounterModel,
    origin: Origin,
    message: Seq<u8>,
    value: i128,
    key: (u32, Seq<u8>),
)
    ensures
        spec_lz_receive(s, origin, message, value) matches Ok((s2, _)) ==> s2.max_received_nonce[key]
            >= s.max_received_nonce[key],
        spec_skip_inbound_nonce(s, key.0, key.1) matches Ok(s2) ==> s2.max_received_nonce[key]
            >= s.max_received_nonce[key],
{
}

/// An accepted inbound message is counted once, in the total and for its source, and changes
/// no other source's count; only an ABA message counts an outbound reply to its source.
pub proof fn law_receive_counts(
    s: CounterModel,
    origin: Origin,
    message: Seq<u8>,
    value: i128,
    other: u32,
)
    requires
        spec_lz_receive(s, origin, message, value) is Ok,
    ensures
        ({
            let (s2, a) = spec_lz_receive(s, origin, message, value).unwrap();
            &&& s2.count == s.count + 1
            &&& s2.inbound[origin.src_eid] == s.inbound[origin.src_eid] + 1
            &&& other != origin.src_eid ==> s2.inbound[other] == s.inbound[other]
            &&& other != origin.src_eid ==> s2.outbound[other] == s.outbound[other]
            &&& s2.composed_count == s.composed_count
            &&& s2.eid == s.eid && s2.ordered_nonce == s.ordered_nonce
            &&& if spec_msg_type(message) == Ok::<MsgType, DecodeError>(MsgType::ABA) {
                s2.outbound[origin.src_eid] == s.outbound[origin.src_eid] + 1
            } else {
                s2.outbound[origin.src_eid] == s.outbound[origin.src_eid]
            }
        }),
{
}

/// The reply to an ABA message is a Vanilla message from this endpoint to the source that
/// asks for the ABA response value, and it pays all the value delivered with the message as
/// its native fee.
pub proof fn law_aba_reply(s: CounterModel, origin: Origin, message: Seq<u8>, value: i128)
    requires
        spec_msg_type(message) == Ok::<MsgType, DecodeError>(MsgType::ABA),
        spec_lz_receive(s, origin, message, value) is Ok,
    ensures
        spec_lz_receive(s, origin, message, value).unwrap().1 matches ActionModel::Send {
            dst_eid,
            message: reply,
            ..
        } && dst_eid == origin.src_eid && spec_msg_type(reply) == Ok::<MsgType, DecodeError>(
            MsgType::Vanilla,
        ) && spec_src_eid(reply) == Ok::<u32, DecodeError>(s.eid) && spec_value(reply) == Ok::<
            i128,
            Failure,
        >(ABA_RESPONSE_VALUE as i128),
        spec_lz_receive(s, origin, message, value).unwrap().1 matches ActionModel::Send {
            native_fee,
            ..
        } && native_fee == value,
{
    crate::counter_codec::lemma_codec_roundtrip(MsgType::Vanilla, s.eid, ABA_RESPONSE_VALUE);
}

/// A compose call counts once and is refused for message types that are not composed.
pub proof fn law_compose_counts(s: CounterModel, message: Seq<u8>, value: i128)
    ensures
        spec_lz_compose(s, message, value) matches Ok((s2, _)) ==> s2.composed_count
            == s.composed_count + 1 && s2.count == s.count && s2.inbound == s.inbound,
        (spec_msg_type(message) == Ok::<MsgType, DecodeError>(MsgType::Vanilla) || spec_msg_type(
            message,
        ) == Ok::<MsgType, DecodeError>(MsgType::ABA)) ==> spec_lz_compose(s, message, value)
            == Err::<(CounterModel, ActionModel), Failure>(
            Failure::Counter(CounterError::InvalidMsgType),
        ),
{
}

/// An accepted inbound message was delivered with at least the value it asks for when it is
/// Vanilla or ABA; a Vanilla message asks for nothing more, and a composed message is
/// forwarded unchanged as a compose message to the Counter itself.
pub proof fn law_receive_value_covered(s: CounterModel, origin: Origin, message: Seq<u8>, value: i128)
    ensures
        spec_lz_receive(s, origin, message, value) is Ok && (spec_msg_type(message) == Ok::<
            MsgType,
            DecodeError,
        >(MsgType::Vanilla) || spec_msg_type(message) == Ok::<MsgType, DecodeError>(MsgType::ABA))
            ==> (spec_value(message) matches Ok(v) && value >= v),
        spec_lz_receive(s, origin, message, value) is Ok && spec_msg_type(message) == Ok::<
            MsgType,
            DecodeError,
        >(MsgType::Vanilla) ==> spec_lz_receive(s, origin, message, value).unwrap().1
            is Nothing,
        spec_lz_receive(s, origin, message, value) is Ok && (spec_msg_type(message) == Ok::<
            MsgType,
            DecodeError,
        >(MsgType::Composed) || spec_msg_type(message) == Ok::<MsgType, DecodeError>(
            MsgType::ComposedABA,
        )) ==> spec_lz_receive(s, origin, message, value).unwrap().1 == ActionModel::SendCompose(
            message,
        ),
        spec_accept_nonce(s, origin) is Ok && s.count < u64::MAX && s.inbound[origin.src_eid]
            < u64::MAX && spec_msg_type(message) == Ok::<MsgType, DecodeError>(MsgType::Vanilla)
            && spec_value(message) is Ok && value < spec_value(message).unwrap() ==> spec_lz_receive(
            s,
            origin,
            message,
            value,
        ) == Err::<(CounterModel, ActionModel), Failure>(
            Failure::Counter(CounterError::InsufficientValue),
        ),
{
}

/// An accepted compose message was delivered with at least the value it asks for; a
/// ComposedABA message is answered with a Vanilla message from this endpoint, with no value
/// asked, to the source endpoint named in the message, paying all the delivered value as its
/// native fee and counted as outbound to that source; a Composed message needs no reply.
pub proof fn law_compose_reply(s: CounterModel, message: Seq<u8>, value: i128)
    ensures
        spec_lz_compose(s, message, value) is Ok ==> (spec_value(message) matches Ok(v) && value
            >= v),
        spec_lz_compose(s, message, value) is Ok && spec_msg_type(message) == Ok::<
            MsgType,
            DecodeError,
        >(MsgType::Composed) ==> spec_lz_compose(s, message, value).unwrap().1 is Nothing,
        spec_lz_compose(s, message, value) is Ok && spec_msg_type(message) == Ok::<
            MsgType,
            DecodeError,
        >(MsgType::ComposedABA) ==> ({
            let (s2, a) = spec_lz_compose(s, message, value).unwrap();
            &&& a matches ActionModel::Send { dst_eid, message: reply, native_fee, .. }
            &&& spec_src_eid(message) == Ok::<u32, DecodeError>(a->dst_eid)
            &&& a->native_fee == value
            &&& spec_msg_type(a->message) == Ok::<MsgType, DecodeError>(MsgType::Vanilla)
            &&& spec_src_eid(a->message) == Ok::<u32, DecodeError>(s.eid)
            &&& spec_value(a->message) == Ok::<i128, Failure>(0)
            &&& s2.outbound[a->dst_eid] == s.outbound[a->dst_eid] + 1
        }),
{
    crate::counter_codec::lemma_codec_roundtrip(MsgType::Vanilla, s.eid, 0);
}

/// An increment sends a message of the requested type (the low byte of the argument) from
/// this endpoint, asking for no value, and counts one more message to its destination and
/// none to any other; it succeeds exactly when the low byte names a message type and the
/// destination's count can grow. `quote` prices that same message.
pub proof fn law_increment_message(s: CounterModel, dst_eid: u32, msg_type: u32, other: u32)
    ensures
        spec_increment(s, dst_eid, msg_type) is Ok <==> (1 <= (msg_type as u8) <= 4
            && s.outbound[dst_eid] < u64::MAX),
        spec_msg_type_arg(msg_type) matches Ok(t) ==> msg_type_code(t) == msg_type as u8,
        spec_msg_type_arg(msg_type) is Ok <==> 1 <= (msg_type as u8) <= 4,
        spec_increment(s, dst_eid, msg_type) is Ok ==> ({
            let (s2, m) = spec_increment(s, dst_eid, msg_type).unwrap();
            &&& spec_msg_type(m) matches Ok(t) && msg_type_code(t) == msg_type as u8
            &&& spec_src_eid(m) == Ok::<u32, DecodeError>(s.eid)
            &&& spec_value(m) == Ok::<i128, Failure>(0)
            &&& s2.outbound[dst_eid] == s.outbound[dst_eid] + 1
            &&& other != dst_eid ==> s2.outbound[other] == s.outbound[other]
            &&& s2.count == s.count && s2.inbound == s.inbound
        }),
{
    if spec_msg_type_arg(msg_type) is Ok {
        crate::counter_codec::lemma_codec_roundtrip(spec_msg_type_arg(msg_type).unwrap(), s.eid, 0);
    }
}

/// Whether a compose call moves native value from the executor to the Counter: only a
/// positive value does.
pub fn compose_transfers_value(value: i128) -> (r: bool)
    ensures
        r == (value > 0),
{
    value > 0
}

/// The latest write of `eid` in a log.
fn lookup_count(log: &Vec<EidCount>, eid: u32) -> (r: u64)
    ensures
        r == count_of(log@, eid),
{
    let mut j: usize = log.len();
    assert(log@.take(j as int) =~= log@);
    while j > 0
        invariant
            j <= log@.len(),
            count_of(log@, eid) == count_of(log@.take(j as int), eid),
        decreases j,
    {
        assert(log@.take(j as int).drop_last() =~= log@.take(j - 1));
        if log[j - 1].eid == eid {
            return log[j - 1].count;
        }
        j = j - 1;
    }
    0
}

/// The latest write of a path's nonce in a log.
fn lookup_nonce(log: &Vec<PathNonce>, eid: u32, sender: &[u8; 32]) -> (r: u64)
    ensures
        r == nonce_of(log@, eid, sender@),
{
    let mut j: usize = log.len();
    assert(log@.take(j as int) =~= log@);
    while j > 0
        invariant
            j <= log@.len(),
            nonce_of(log@, eid, sender@) == nonce_of(log@.take(j as int), eid, sender@),
        decreases j,
    {
        assert(log@.take(j as int).drop_last() =~= log@.take(j - 1));
        if log[j - 1].eid == eid && bytes32_eq(&log[j - 1].sender, sender) {
            return log[j - 1].nonce;
        }
        j = j - 1;
    }
    0
}

proof fn lemma_counts_push(log: Seq<EidCount>, e: EidCount)
    ensures
        counts_map(log.push(e)) == counts_map(log).insert(e.eid, e.count),
{
    assert(log.push(e).drop_last() =~= log);
    assert(counts_map(log.push(e)) =~= counts_map(log).insert(e.eid, e.count));
}

proof fn lemma_nonces_push(log: Seq<PathNonce>, e: PathNonce)
    ensures
        nonces_map(log.push(e)) == nonces_map(log).insert((e.eid, e.sender@), e.nonce),
{
    assert(log.push(e).drop_last() =~= log);
    assert(nonces_map(log.push(e)) =~= nonces_map(log).insert((e.eid, e.sender@), e.nonce));
}

impl Counter {
    /// A freshly deployed Counter on endpoint `eid`.
    pub fn new(eid: u32) -> (r: Counter)
        ensures
            r@ == initial_model(eid),
    {
        let r = Counter {
            eid,
            ordered_nonce: false,
            count: 0,
            composed_count: 0,
            inbound: Vec::new(),
            outbound: Vec::new(),
            max_received: Vec::new(),
        };
        assert(r@.inbound =~= initial_model(eid).inbound);
        assert(r@.outbound =~= initial_model(eid).outbound);
        assert(r@.max_received_nonce =~= initial_model(eid).max_received_nonce);
        r
    }

    /// A Counter whose storage holds the given values and the given logs of keyed writes
    /// (the latest write of a key wins, unwritten keys read 0).
    pub fn from_storage(
        eid: u32,
        ordered_nonce: bool,
        count: u64,
        composed_count: u64,
        inbound: Vec<EidCount>,
        outbound: Vec<EidCount>,
        max_received: Vec<PathNonce>,
    ) -> (r: Counter)
        ensures
            r@ == (CounterModel {
                eid,
                ordered_nonce,
                count,
                composed_count,
                inbound: counts_map(inbound@),
                outbound: counts_map(outbound@),
                max_received_nonce: nonces_map(max_received@),
            }),
    {
        Counter { eid, ordered_nonce, count, composed_count, inbound, outbound, max_received }
    }

    /// The endpoint ID of this Counter.
    pub fn eid(&self) -> (r: u32)
        ensures
            r == self@.eid,
    {
        self.eid
    }

    /// Number of inbound messages handled.
    pub fn count(&self) -> (r: u64)
        ensures
            r == self@.count,
    {
        self.count
    }

    /// Number of compose messages handled.
    pub fn composed_count(&self) -> (r: u64)
        ensures
            r == self@.composed_count,
    {
        self.composed_count
    }

    /// Number of messages received from `eid`.
    pub fn inbound_count(&self, eid: u32) -> (r: u64)
        ensures
            r == self@.inbound[eid],
    {
        lookup_count(&self.inbound, eid)
    }

    /// Number of messages sent to `eid`.
    pub fn outbound_count(&self, eid: u32) -> (r: u64)
        ensures
            r == self@.outbound[eid],
    {
        lookup_count(&self.outbound, eid)
    }

    /// The highest nonce received on a path.
    pub fn max_received_nonce(&self, src_eid: u32, sender: &[u8; 32]) -> (r: u64)
        ensures
            r == self@.max_received_nonce[(src_eid, sender@)],
    {
        lookup_nonce(&self.max_received, src_eid, sender)
    }

    /// Turns ordered nonce enforcement on or off.
    pub fn set_ordered_nonce(&mut self, ordered_nonce: bool)
        ensures
            final(self)@ == (CounterModel { ordered_nonce, ..old(self)@ }),
    {
        self.ordered_nonce = ordered_nonce;
    }

    fn set_inbound(&mut self, eid: u32, count: u64)
        ensures
            final(self)@ == (CounterModel { inbound: old(self)@.inbound.insert(eid, count), ..old(self)@ }),
    {
        proof {
            lemma_counts_push(self.inbound@, EidCount { eid, count });
        }
        self.inbound.push(EidCount { eid, count });
    }

    fn set_outbound(&mut self, eid: u32, count: u64)
        ensures
            final(self)@ == (CounterModel { outbound: old(self)@.outbound.insert(eid, count), ..old(self)@ }),
    {
        proof {
            lemma_counts_push(self.outbound@, EidCount { eid, count });
        }
        self.outbound.push(EidCount { eid, count });
    }

    fn set_max_received(&mut self, eid: u32, sender: [u8; 32], nonce: u64)
        ensures
            final(self)@ == (CounterModel {
                max_received_nonce: old(self)@.max_received_nonce.insert((eid, sender@), nonce),
                ..old(self)@
            }),
    {
        proof {
            lemma_nonces_push(self.max_received@, PathNonce { eid, sender, nonce });
        }
        self.max_received.push(PathNonce { eid, sender, nonce });
    }

    /// The nonce the executor must deliver next on a path (0 when delivery is unordered).
    pub fn next_nonce(&self, src_eid: u32, sender: &[u8; 32]) -> (r: Result<u64, Failure>)
        ensures
            r == spec_next_nonce(self@, src_eid, sender@),
    {
        if self.ordered_nonce {
            let cur = self.max_received_nonce(src_eid, sender);
            if cur == u64::MAX {
                return Err(Failure::Overflow);
            }
            Ok(cur + 1)
        } else {
            Ok(0)
        }
    }

    /// Records that the owner skipped the next inbound nonce of a path.
    pub fn skip_inbound_nonce(&mut self, src_eid: u32, sender: &[u8; 32]) -> (r: Result<(), Failure>)
        ensures
            match spec_skip_inbound_nonce(old(self)@, src_eid, sender@) {
                Ok(s) => r is Ok && final(self)@ == s,
                Err(e) => r == Err::<(), Failure>(e) && final(self)@ == old(self)@,
            },
    {
        if self.ordered_nonce {
            let cur = self.max_received_nonce(src_eid, sender);
            if cur == u64::MAX {
                return Err(Failure::Overflow);
            }
            self.set_max_received(src_eid, *sender, cur + 1);
        }
        Ok(())
    }

    /// Checks that `value` covers what `message` asks for.
    fn check_value(message: &[u8], value: i128) -> (r: Result<(), Failure>)
        ensures
            r == spec_check_value(message@, value),
    {
        let expected = crate::counter_codec::value(message)?;
        if value < expected {
            return Err(Failure::Counter(CounterError::InsufficientValue));
        }
        Ok(())
    }

    /// Handles an inbound message whose payload the endpoint has cleared and whose `value`
    /// the executor has paid; on failure the storage is unchanged.
    pub fn lz_receive(&mut self, origin: &Origin, message: &[u8], value: i128) -> (r: Result<
        CounterAction,
        Failure,
    >)
        ensures
            match spec_lz_receive(old(self)@, *origin, message@, value) {
                Ok((s, a)) => r matches Ok(act) && act@ == a && final(self)@ == s,
                Err(e) => r == Err::<CounterAction, Failure>(e) && final(self)@ == old(self)@,
            },
    {
        let ghost s0 = self@;
        // Nonce bookkeeping.
        let cur = self.max_received_nonce(origin.src_eid, &origin.sender);
        if self.ordered_nonce {
            if cur == u64::MAX {
                return Err(Failure::Overflow);
            }
            if origin.nonce != cur + 1 {
                return Err(Failure::Counter(CounterError::OAppInvalidNonce));
            }
        }
        let new_max = if origin.nonce > cur { origin.nonce } else { cur };
        // Counting.
        let inbound = self.inbound_count(origin.src_eid);
        if self.count == u64::MAX || inbound == u64::MAX {
            return Err(Failure::Overflow);
        }
        // Acting on the message type; nothing is written before every check has passed.
        let t = match msg_type(message) {
            Ok(t) => t,
            Err(e) => return Err(Failure::Decode(e)),
        };
        let action = match t {
            MsgType::Vanilla => {
                Self::check_value(message, value)?;
                CounterAction::Nothing
            },
            MsgType::Composed | MsgType::ComposedABA => {
                let m = crate::bytes::copy_range(message, 0, message.len());
                assert(m@ =~= message@);
                CounterAction::SendCompose(m)
            },
            MsgType::ABA => {
                Self::check_value(message, value)?;
                let outbound = self.outbound_count(origin.src_eid);
                if outbound == u64::MAX {
                    return Err(Failure::Overflow);
                }
                self.set_outbound(origin.src_eid, outbound + 1);
                CounterAction::Send {
                    dst_eid: origin.src_eid,
                    message: encode_with_value(MsgType::Vanilla, self.eid, ABA_RESPONSE_VALUE),
                    options: executor_lz_receive_option(
                        RESPONSE_GAS_LIMIT,
                        ABA_RESPONSE_VALUE as u128,
                    ),
                    native_fee: value,
                }
            },
        };
        self.set_max_received(origin.src_eid, origin.sender, new_max);
        self.count = self.count + 1;
        self.set_inbound(origin.src_eid, inbound + 1);
        proof {
            let s1 = spec_accept_nonce(s0, *origin).unwrap();
            assert(s1.count == s0.count);
            assert(s1.inbound == s0.inbound);
            let s2 = CounterModel {
                count: (s1.count + 1) as u64,
                inbound: s1.inbound.insert(origin.src_eid, (s1.inbound[origin.src_eid] + 1) as u64),
                ..s1
            };
            if t == MsgType::ABA {
                assert(self@.outbound =~= s2.outbound.insert(origin.src_eid, (s2.outbound[origin.src_eid] + 1) as u64));
                assert(self@.max_received_nonce =~= s2.max_received_nonce);
                assert(self@.inbound =~= s2.inbound);
            } else {
                assert(self@.max_received_nonce =~= s2.max_received_nonce);
                assert(self@.inbound =~= s2.inbound);
                assert(self@ == s2);
            }
        }
        Ok(action)
    }

    /// Handles a compose message that the endpoint has cleared and whose `value` the executor
    /// has paid; on failure the storage is unchanged.
    pub fn lz_compose(&mut self, message: &[u8], value: i128) -> (r: Result<CounterAction, Failure>)
        ensures
            match spec_lz_compose(old(self)@, message@, value) {
                Ok((s, a)) => r matches Ok(act) && act@ == a && final(self)@ == s,
                Err(e) => r == Err::<CounterAction, Failure>(e) && final(self)@ == old(self)@,
            },
    {
        let t = match msg_type(message) {
            Ok(t) => t,
            Err(e) => return Err(Failure::Decode(e)),
        };
        if t != MsgType::Composed && t != MsgType::ComposedABA {
            return Err(Failure::Counter(CounterError::InvalidMsgType));
        }
        Self::check_value(message, value)?;
        if self.composed_count == u64::MAX {
            return Err(Failure::Overflow);
        }
        if t == MsgType::ComposedABA {
            let src = match src_eid(message) {
                Ok(e) => e,
                Err(e) => return Err(Failure::Decode(e)),
            };
            let outbound = self.outbound_count(src);
            if outbound == u64::MAX {
                return Err(Failure::Overflow);
            }
            self.composed_count = self.composed_count + 1;
            self.set_outbound(src, outbound + 1);
            Ok(CounterAction::Send {
                dst_eid: src,
                message: encode(MsgType::Vanilla, self.eid),
                options: executor_lz_receive_option(RESPONSE_GAS_LIMIT, 0),
                native_fee: value,
            })
        } else {
            self.composed_count = self.composed_count + 1;
            Ok(CounterAction::Nothing)
        }
    }

    /// Counts an increment towards `dst_eid` and returns the message to send.
    pub fn increment(&mut self, dst_eid: u32, msg_type: u32) -> (r: Result<Vec<u8>, Failure>)
        ensures
            match spec_increment(old(self)@, dst_eid, msg_type) {
                Ok((s, m)) => r matches Ok(msg) && msg@ == m && final(self)@ == s,
                Err(e) => r == Err::<Vec<u8>, Failure>(e) && final(self)@ == old(self)@,
            },
    {
        let outbound = self.outbound_count(dst_eid);
        if outbound == u64::MAX {
            return Err(Failure::Overflow);
        }
        let t = match MsgType::from(msg_type as u8) {
            Some(t) => t,
            None => return Err(Failure::Decode(DecodeError::UnknownMsgType)),
        };
        self.set_outbound(dst_eid, outbound + 1);
        Ok(encode(t, self.eid))
    }

    /// The message whose messaging fee `quote` asks the endpoint for, for a message type
    /// argument.
    pub fn quote(&self, msg_type: u32) -> (r: Result<Vec<u8>, Failure>)
        ensures
            match spec_msg_type_arg(msg_type) {
                Ok(t) => r matches Ok(m) && m@ == spec_encode(t, self@.eid),
                Err(e) => r == Err::<Vec<u8>, Failure>(e),
            },
    {
        match MsgType::from(msg_type as u8) {
            Some(t) => Ok(encode(t, self.eid)),
            None => Err(Failure::Decode(DecodeError::UnknownMsgType)),
        }
    }
}

} // verus!
