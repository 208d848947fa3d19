//! The decisions of an Omnichain Fungible Token: decimals, dust, slippage, the outbound
//! message and options, and what an inbound message credits.
use vstd::prelude::*;
use crate::bytes::bytes32_eq;
use crate::errors::{Failure, OAppError, OFTError};
use crate::oapp::{Origin, combine_options, spec_combine_options};
use crate::oft_codec::{
    ComposeData, ComposeModel, OFTComposeMsg, OFTComposeModel, OFTMessage, OFTMessageModel,
    decode_oft_message, encode_compose_msg, encode_oft_message,
};
use crate::oft_utils::{
    lemma_remove_dust_bounds, lemma_remove_dust_idempotent, lemma_to_sd_to_ld, remove_dust,
    spec_remove_dust, spec_to_sd, to_ld, to_sd,
};
use crate::oft_codec::{lemma_oft_message_roundtrip, oft_message_wf};

verus! {

/// Message type for a plain OFT send.
pub const SEND: u32 = 1;

/// Message type for an OFT send with a compose message.
pub const SEND_AND_CALL: u32 = 2;

/// Parameters for sending OFT tokens cross-chain.
#[derive(Clone, Debug, PartialEq, Eq)]
pub struct SendParam {
    /// The destination endpoint ID.
    pub dst_eid: u32,
    /// The recipient address on the destination chain.
    pub to: [u8; 32],
    /// The amount to send in local decimals.
    pub amount_ld: i128,
    /// The minimum amount to receive in local decimals (slippage protection).
    pub min_amount_ld: i128,
    /// Additional options for the LayerZero message.
    pub extra_options: Vec<u8>,
    /// Compose message to execute on the destination.
    pub compose_msg: Vec<u8>,
    /// OFT command for custom behavior.
    pub oft_cmd: Vec<u8>,
}

/// Transfer limits, in local decimals.
#[derive(Clone, Copy, Debug, PartialEq, Eq, Structural)]
pub struct OFTLimit {
    pub min_amount_ld: i128,
    pub max_amount_ld: i128,
}

/// Amounts sent and received in an OFT transfer, in local decimals.
#[derive(Clone, Copy, Debug, PartialEq, Eq, Structural)]
pub struct OFTReceipt {
    pub amount_sent_ld: i128,
    pub amount_received_ld: i128,
}

/// A fee charged (positive) or reward given (negative) in an OFT operation.
#[derive(Clone, Debug, PartialEq, Eq)]
pub struct OFTFeeDetail {
    pub fee_amount_ld: i128,
    pub description: Vec<u8>,
}

/// The 32-byte payload of a Stellar address: an account's Ed25519 key (G-address) or a
/// contract's ID hash (C-address).
#[derive(Clone, Copy, Debug, PartialEq, Eq)]
pub enum AddressPayload {
    AccountIdPublicKeyEd25519([u8; 32]),
    ContractIdHash([u8; 32]),
}

/// The OFT wire-format version, `(major, minor)`.
pub fn oft_version() -> (r: (u64, u64))
    ensures
        r == (1u64, 1u64),
{
    (1, 1)
}

/// Whether a token allowance must be granted before sending: not by default.
pub fn approval_required() -> (r: bool)
    ensures
        !r,
{
    false
}

/// `10 ^ n`.
pub open spec fn pow10(n: nat) -> nat
    decreases n,
{
    if n == 0 { 1 } else { 10 * pow10((n - 1) as nat) }
}

/// Powers of ten are positive and grow with the exponent.
pub proof fn lemma_pow10_mono(m: nat, n: nat)
    requires
        m <= n,
    ensures
        1 <= pow10(m) <= pow10(n),
    decreases n,
{
    if n > 0 {
        if m < n {
            lemma_pow10_mono(m, (n - 1) as nat);
        } else {
            lemma_pow10_mono((m - 1) as nat, (n - 1) as nat);
        }
    }
}

/// The value of `10 ^ 38`, the largest power of ten that fits in an `i128`.
pub proof fn lemma_pow10_38()
    ensures
        pow10(38) == 100000000000000000000000000000000000000nat,
{
    reveal_with_fuel(pow10, 39);
}

/// A stored setting, or `NotInitialized` when the OFT was never initialized.
pub fn require_initialized<T>(stored: Option<T>) -> (r: Result<T, OFTError>)
    ensures
        match stored {
            Some(v) => r == Ok::<T, OFTError>(v),
            None => r == Err::<T, OFTError>(OFTError::NotInitialized),
        },
{
    match stored {
        Some(v) => Ok(v),
        None => Err(OFTError::NotInitialized),
    }
}

/// The decimals difference stored at initialization: the token's local decimals must be at
/// least the shared decimals.
pub fn init_decimals_diff(local_decimals: u32, shared_decimals: u32) -> (r: Result<u32, OFTError>)
    ensures
        local_decimals >= shared_decimals ==> r == Ok::<u32, OFTError>(
            (local_decimals - shared_decimals) as u32,
        ),
        local_decimals < shared_decimals ==> r == Err::<u32, OFTError>(
            OFTError::InvalidLocalDecimals,
        ),
{
    if local_decimals >= shared_decimals {
        Ok(local_decimals - shared_decimals)
    } else {
        Err(OFTError::InvalidLocalDecimals)
    }
}

/// The decimal conversion rate `10 ^ decimals_diff`.
pub fn decimal_conversion_rate(decimals_diff: u32) -> (r: i128)
    requires
        decimals_diff <= 38,
    ensures
        r == pow10(decimals_diff as nat),
        r >= 1,
{
    let mut rate: i128 = 1;
    let mut i: u32 = 0;
    while i < decimals_diff
        invariant
            i <= decimals_diff <= 38,
            rate == pow10(i as nat),
        decreases decimals_diff - i,
    {
        proof {
            lemma_pow10_mono((i + 1) as nat, 38);
            lemma_pow10_38();
        }
        rate = rate.checked_mul(10).unwrap();
        i = i + 1;
    }
    proof {
        lemma_pow10_mono(0, decimals_diff as nat);
    }
    rate
}

/// The shared decimals: the token's local decimals minus the stored difference.
pub fn shared_decimals(local_decimals: u32, decimals_diff: u32) -> (r: u32)
    requires
        local_decimals >= decimals_diff,
    ensures
        r == local_decimals - decimals_diff,
{
    local_decimals.checked_sub(decimals_diff).unwrap()
}

/// The amount and slippage floor of a send must not be negative.
pub fn assert_nonnegative_amount(send_param: &SendParam) -> (r: Result<(), OFTError>)
    ensures
        r is Ok <==> (send_param.amount_ld >= 0 && send_param.min_amount_ld >= 0),
        r matches Err(e) ==> e == OFTError::InvalidAmount,
{
    if send_param.amount_ld >= 0 && send_param.min_amount_ld >= 0 {
        Ok(())
    } else {
        Err(OFTError::InvalidAmount)
    }
}

/// The amounts of a debit without fees: dust is removed from what is sent and the same
/// amount is received, which must reach the slippage floor.
pub open spec fn spec_debit_view(amount_ld: int, min_amount_ld: int, conversion_rate: int) -> Result<
    (i128, i128),
    OFTError,
> {
    let sent = spec_remove_dust(amount_ld, conversion_rate);
    if sent < min_amount_ld {
        Err(OFTError::SlippageExceeded)
    } else {
        Ok((sent as i128, sent as i128))
    }
}

/// Simulates a debit: removes dust, charges no fee, and checks the slippage floor.
pub fn debit_view(amount_ld: i128, min_amount_ld: i128, conversion_rate: i128) -> (r: Result<
    (i128, i128),
    OFTError,
>)
    requires
        conversion_rate != 0,
        !(amount_ld == i128::MIN && conversion_rate == -1),
    ensures
        r == spec_debit_view(amount_ld as int, min_amount_ld as int, conversion_rate as int),
{
    let amount_sent_ld = remove_dust(amount_ld, conversion_rate);
    let amount_received_ld = amount_sent_ld;
    if amount_received_ld < min_amount_ld {
        return Err(OFTError::SlippageExceeded);
    }
    Ok((amount_sent_ld, amount_received_ld))
}

/// Quotes an OFT transfer: limits `[0, u64::MAX]`, no fees, and the receipt of a debit view.
pub fn quote_oft(send_param: &SendParam, conversion_rate: i128) -> (r: Result<
    (OFTLimit, Vec<OFTFeeDetail>, OFTReceipt),
    OFTError,
>)
    requires
        conversion_rate > 0,
    ensures
        (send_param.amount_ld < 0 || send_param.min_amount_ld < 0) ==> r == Err::<
            (OFTLimit, Vec<OFTFeeDetail>, OFTReceipt),
            OFTError,
        >(OFTError::InvalidAmount),
        (send_param.amount_ld >= 0 && send_param.min_amount_ld >= 0) ==> match spec_debit_view(
            send_param.amount_ld as int,
            send_param.min_amount_ld as int,
            conversion_rate as int,
        ) {
            Ok((sent, received)) => r matches Ok((limit, fees, receipt)) && limit == OFTLimit {
                min_amount_ld: 0,
                max_amount_ld: u64::MAX as i128,
            } && fees@.len() == 0 && receipt == OFTReceipt {
                amount_sent_ld: sent,
                amount_received_ld: received,
            },
            Err(e) => r matches Err(e2) && e2 == e,
        },
{
    assert_nonnegative_amount(send_param)?;
    let limit = OFTLimit { min_amount_ld: 0, max_amount_ld: u64::MAX as i128 };
    let fee_details: Vec<OFTFeeDetail> = Vec::new();
    let (amount_sent_ld, amount_received_ld) = debit_view(
        send_param.amount_ld,
        send_param.min_amount_ld,
        conversion_rate,
    )?;
    Ok((limit, fee_details, OFTReceipt { amount_sent_ld, amount_received_ld }))
}

/// The 32-byte payload of an address, as `Address::to_payload` gave it; an address without
/// one is refused with `InvalidAddress`.
pub fn address_payload(payload: &Option<AddressPayload>) -> (r: Result<[u8; 32], OFTError>)
    ensures
        match payload {
            Some(AddressPayload::ContractIdHash(p)) => r == Ok::<[u8; 32], OFTError>(*p),
            Some(AddressPayload::AccountIdPublicKeyEd25519(p)) => r == Ok::<[u8; 32], OFTError>(
                *p,
            ),
            None => r == Err::<[u8; 32], OFTError>(OFTError::InvalidAddress),
        },
{
    match payload {
        Some(AddressPayload::ContractIdHash(p)) => Ok(*p),
        Some(AddressPayload::AccountIdPublicKeyEd25519(p)) => Ok(*p),
        None => Err(OFTError::InvalidAddress),
    }
}

/// The address that a 32-byte payload resolves to: the contract address when a contract with
/// that ID exists, the account address otherwise.
pub fn resolve_address(bytes32: &[u8; 32], contract_exists: bool) -> (r: AddressPayload)
    ensures
        contract_exists ==> r == AddressPayload::ContractIdHash(*bytes32),
        !contract_exists ==> r == AddressPayload::AccountIdPublicKeyEd25519(*bytes32),
{
    if contract_exists {
        AddressPayload::ContractIdHash(*bytes32)
    } else {
        AddressPayload::AccountIdPublicKeyEd25519(*bytes32)
    }
}

/// The OApp message type of a send: `SEND_AND_CALL` when a compose message is present.
pub fn send_msg_type(send_param: &SendParam) -> (r: u32)
    ensures
        r == if send_param.compose_msg@.len() > 0 { SEND_AND_CALL } else { SEND },
{
    if send_param.compose_msg.len() > 0 {
        SEND_AND_CALL
    } else {
        SEND
    }
}

/// The payload of an address payload, whichever kind it is.
pub open spec fn payload_bytes(p: AddressPayload) -> Seq<u8> {
    match p {
        AddressPayload::ContractIdHash(b) => b@,
        AddressPayload::AccountIdPublicKeyEd25519(b) => b@,
    }
}

/// The outbound message and options of a send: compose data carries the sender's payload when
/// a compose message is present; the amount travels in shared decimals; the extra options are
/// combined with the enforced options for the message type.
pub open spec fn spec_build_msg_and_options(
    send_param: SendParam,
    from_payload: Option<AddressPayload>,
    amount_received_ld: int,
    conversion_rate: int,
    enforced: Option<Seq<u8>>,
) -> Result<(Seq<u8>, Seq<u8>), Failure> {
    let has_compose = send_param.compose_msg@.len() > 0;
    if has_compose && from_payload is None {
        Err(Failure::Oft(OFTError::InvalidAddress))
    } else {
        match spec_to_sd(amount_received_ld, conversion_rate) {
            Err(e) => Err(Failure::Oft(e)),
            Ok(amount_sd) => {
                let message = encode_oft_message(
                    OFTMessageModel {
                        send_to: send_param.to@,
                        amount_sd,
                        compose: if has_compose {
                            Some(
                                ComposeModel {
                                    from: payload_bytes(from_payload.unwrap()),
                                    msg: send_param.compose_msg@,
                                },
                            )
                        } else {
                            None
                        },
                    },
                );
                match spec_combine_options(enforced, send_param.extra_options@) {
                    Err(e) => Err(Failure::OApp(e)),
                    Ok(options) => Ok((message, options)),
                }
            },
        }
    }
}

/// Encodes the OFT message of a send and combines its options. `from_payload` is what
/// `Address::to_payload` gave for the sender; `enforced` holds the enforced options stored for
/// the destination and [`send_msg_type`].
pub fn build_msg_and_options(
    send_param: &SendParam,
    from_payload: &Option<AddressPayload>,
    amount_received_ld: i128,
    conversion_rate: i128,
    enforced: &Option<Vec<u8>>,
) -> (r: Result<(Vec<u8>, Vec<u8>), Failure>)
    requires
        conversion_rate > 0,
    ensures
        match r {
            Ok((m, o)) => spec_build_msg_and_options(
                *send_param,
                *from_payload,
                amount_received_ld as int,
                conversion_rate as int,
                match enforced {
                    Some(e) => Some(e@),
                    None => None,
                },
            ) == Ok::<(Seq<u8>, Seq<u8>), Failure>((m@, o@)),
            Err(e) => spec_build_msg_and_options(
                *send_param,
                *from_payload,
                amount_received_ld as int,
                conversion_rate as int,
                match enforced {
                    Some(e) => Some(e@),
                    None => None,
                },
            ) == Err::<(Seq<u8>, Seq<u8>), Failure>(e),
        },
{
    let has_compose = send_param.compose_msg.len() > 0;
    let compose = if has_compose {
        let from = match address_payload(from_payload) {
            Ok(p) => p,
            Err(e) => return Err(Failure::Oft(e)),
        };
        let msg = crate::bytes::copy_range(
            send_param.compose_msg.as_slice(),
            0,
            send_param.compose_msg.len(),
        );
        assert(msg@ =~= send_param.compose_msg@);
        Some(ComposeData { from, msg })
    } else {
        None
    };
    let amount_sd = match to_sd(amount_received_ld, conversion_rate) {
        Ok(v) => v,
        Err(e) => return Err(Failure::Oft(e)),
    };
    let message = OFTMessage { send_to: send_param.to, amount_sd, compose }.encode();
    let options = match combine_options(enforced, send_param.extra_options.as_slice()) {
        Ok(o) => o,
        Err(e) => return Err(Failure::OApp(e)),
    };
    Ok((message, options))
}

/// The message and options that `quote_send` prices: the amounts must not be negative, the
/// debit view must pass its slippage floor, and the message carries the received amount.
pub open spec fn spec_quote_send_msg(
    send_param: SendParam,
    from_payload: Option<AddressPayload>,
    conversion_rate: int,
    enforced: Option<Seq<u8>>,
) -> Result<(Seq<u8>, Seq<u8>), Failure> {
    if send_param.amount_ld < 0 || send_param.min_amount_ld < 0 {
        Err(Failure::Oft(OFTError::InvalidAmount))
    } else {
        match spec_debit_view(
            send_param.amount_ld as int,
            send_param.min_amount_ld as int,
            conversion_rate,
        ) {
            Err(e) => Err(Failure::Oft(e)),
            Ok((_sent, received)) => spec_build_msg_and_options(
                send_param,
                from_payload,
                received as int,
                conversion_rate,
                enforced,
            ),
        }
    }
}

/// The message and options whose messaging fee `quote_send` asks the endpoint for.
pub fn quote_send_msg(
    send_param: &SendParam,
    from_payload: &Option<AddressPayload>,
    conversion_rate: i128,
    enforced: &Option<Vec<u8>>,
) -> (r: Result<(Vec<u8>, Vec<u8>), Failure>)
    requires
        conversion_rate > 0,
    ensures
        match r {
            Ok((m, o)) => spec_quote_send_msg(
                *send_param,
                *from_payload,
                conversion_rate as int,
                match enforced {
                    Some(e) => Some(e@),
                    None => None,
                },
            ) == Ok::<(Seq<u8>, Seq<u8>), Failure>((m@, o@)),
            Err(e) => spec_quote_send_msg(
                *send_param,
                *from_payload,
                conversion_rate as int,
                match enforced {
                    Some(e) => Some(e@),
                    None => None,
                },
            ) == Err::<(Seq<u8>, Seq<u8>), Failure>(e),
        },
{
    match assert_nonnegative_amount(send_param) {
        Ok(()) => {},
        Err(e) => return Err(Failure::Oft(e)),
    }
    let (_amount_sent_ld, amount_received_ld) = match debit_view(
        send_param.amount_ld,
        send_param.min_amount_ld,
        conversion_rate,
    ) {
        Ok(v) => v,
        Err(e) => return Err(Failure::Oft(e)),
    };
    build_msg_and_options(send_param, from_payload, amount_received_ld, conversion_rate, enforced)
}

/// What an inbound OFT message asks for: the recipient's payload, the amount to credit in
/// local decimals, and the compose data to forward after crediting.
#[derive(Clone, Debug, PartialEq, Eq)]
pub struct ReceivePlan {
    pub send_to: [u8; 32],
    pub amount_ld: i128,
    pub compose: Option<ComposeData>,
}

/// The plan of an inbound message: it must decode, and its amount must fit in local decimals.
pub open spec fn spec_plan_receive(message: Seq<u8>, conversion_rate: int) -> Result<
    (OFTMessageModel, int),
    Failure,
> {
    match decode_oft_message(message) {
        None => Err(Failure::Decode(crate::errors::DecodeError::EndOfInput)),
        Some(m) => if m.amount_sd * conversion_rate > i128::MAX {
            Err(Failure::Overflow)
        } else {
            Ok((m, m.amount_sd * conversion_rate))
        },
    }
}

/// Decodes an inbound OFT message and converts its amount to local decimals.
pub fn plan_receive(message: &[u8], conversion_rate: i128) -> (r: Result<ReceivePlan, Failure>)
    requires
        conversion_rate > 0,
    ensures
        match r {
            Ok(p) => spec_plan_receive(message@, conversion_rate as int) matches Ok((m, amount))
                && m.send_to == p.send_to@ && amount == p.amount_ld && m.compose == match p.compose {
                Some(c) => Some(c@),
                None => None,
            },
            Err(e) => spec_plan_receive(message@, conversion_rate as int) == Err::<
                (OFTMessageModel, int),
                Failure,
            >(e),
        },
{
    let oft_msg = match OFTMessage::decode(message) {
        Ok(m) => m,
        Err(e) => return Err(Failure::Decode(e)),
    };
    if oft_msg.amount_sd as i128 > i128::MAX / conversion_rate {
        proof {
            assert(oft_msg.amount_sd * conversion_rate > i128::MAX) by (nonlinear_arith)
                requires
                    oft_msg.amount_sd > i128::MAX / conversion_rate,
                    conversion_rate > 0,
            ;
        }
        return Err(Failure::Overflow);
    }
    proof {
        assert(oft_msg.amount_sd * conversion_rate <= i128::MAX) by (nonlinear_arith)
            requires
                oft_msg.amount_sd <= i128::MAX / conversion_rate,
                conversion_rate > 0,
        ;
        assert(oft_msg.amount_sd * conversion_rate >= 0) by (nonlinear_arith)
            requires
                oft_msg.amount_sd >= 0,
                conversion_rate > 0,
        ;
    }
    let amount_ld = to_ld(oft_msg.amount_sd, conversion_rate);
    Ok(ReceivePlan { send_to: oft_msg.send_to, amount_ld, compose: oft_msg.compose })
}

/// The compose message forwarded after an inbound transfer credited `amount_received_ld`.
pub fn receive_compose_msg(origin: &Origin, amount_received_ld: i128, compose: &ComposeData) -> (r:
    Vec<u8>)
    ensures
        r@ == encode_compose_msg(
            OFTComposeModel {
                nonce: origin.nonce,
                src_eid: origin.src_eid,
                amount_ld: amount_received_ld,
                compose_from: compose.from@,
                compose_msg: compose.msg@,
            },
        ),
{
    let msg = crate::bytes::copy_range(compose.msg.as_slice(), 0, compose.msg.len());
    assert(msg@ =~= compose.msg@);
    OFTComposeMsg {
        nonce: origin.nonce,
        src_eid: origin.src_eid,
        amount_ld: amount_received_ld,
        compose_from: compose.from,
        compose_msg: msg,
    }.encode()
}

/// What a send puts on the wire is what the destination credits: the message that
/// `quote_send` prices (and `send` sends, for a debit without fees) decodes at the destination,
/// with the same conversion rate, to the recipient, the compose payload and exactly the
/// amount left after dust removal, which is never more than the amount asked for and falls
/// short of it by less than one conversion unit.
pub proof fn law_send_amount_arrives(
    send_param: SendParam,
    from_payload: Option<AddressPayload>,
    conversion_rate: int,
    enforced: Option<Seq<u8>>,
)
    requires
        0 < conversion_rate <= i128::MAX,
        spec_quote_send_msg(send_param, from_payload, conversion_rate, enforced) is Ok,
    ensures
        ({
            let message = spec_quote_send_msg(send_param, from_payload, conversion_rate, enforced).unwrap().0;
            let received = spec_remove_dust(send_param.amount_ld as int, conversion_rate);
            &&& spec_plan_receive(message, conversion_rate) matches Ok((m, amount))
            &&& amount == received
            &&& m.send_to == send_param.to@
            &&& (m.compose is Some <==> send_param.compose_msg@.len() > 0)
            &&& m.compose matches Some(c) ==> c.msg == send_param.compose_msg@
                && c.from == payload_bytes(from_payload.unwrap())
            &&& 0 <= received <= send_param.amount_ld
            &&& send_param.amount_ld - received < conversion_rate
        }),
{
    let amount = send_param.amount_ld as int;
    lemma_remove_dust_bounds(amount, conversion_rate);
    lemma_remove_dust_idempotent(amount, conversion_rate);
    let received = spec_remove_dust(amount, conversion_rate);
    assert(spec_debit_view(amount, send_param.min_amount_ld as int, conversion_rate) == Ok::<
        (i128, i128),
        OFTError,
    >((received as i128, received as i128)));
    lemma_to_sd_to_ld(received, conversion_rate);
    let amount_sd = spec_to_sd(received, conversion_rate).unwrap();
    let has_compose = send_param.compose_msg@.len() > 0;
    let model = OFTMessageModel {
        send_to: send_param.to@,
        amount_sd,
        compose: if has_compose {
            Some(ComposeModel { from: payload_bytes(from_payload.unwrap()), msg: send_param.compose_msg@ })
        } else {
            None
        },
    };
    assert(send_param.to@.len() == 32);
    if has_compose {
        match from_payload.unwrap() {
            AddressPayload::ContractIdHash(b) => assert(b@.len() == 32),
            AddressPayload::AccountIdPublicKeyEd25519(b) => assert(b@.len() == 32),
        }
    }
    assert(oft_message_wf(model));
    lemma_oft_message_roundtrip(model);
}

/// The options of a send are the caller's extra options combined with the enforced ones:
/// with nothing enforced they are the extra options as given; with no extra options they are
/// the enforced options; otherwise the extra options are of type 3 and their body (after the
/// 2-byte type) follows the enforced options. Extra options that are not of type 3 are refused
/// when options are enforced.
pub proof fn law_send_options(
    send_param: SendParam,
    from_payload: Option<AddressPayload>,
    amount_received_ld: int,
    conversion_rate: int,
    enforced: Option<Seq<u8>>,
)
    ensures
        ({
            let extra = send_param.extra_options@;
            let r = spec_build_msg_and_options(
                send_param,
                from_payload,
                amount_received_ld,
                conversion_rate,
                enforced,
            );
            let o = r.unwrap().1;
            &&& r is Ok && enforced is None ==> o == extra
            &&& r is Ok && enforced is Some && extra.len() == 0 ==> o == enforced.unwrap()
            &&& r is Ok && enforced is Some && extra.len() > 0 ==> {
                &&& extra.len() >= 2
                &&& crate::oapp::options_type(extra) == 3
                &&& o == enforced.unwrap() + extra.subrange(2, extra.len() as int)
            }
            &&& enforced is Some && extra.len() > 0 && !(extra.len() >= 2
                && crate::oapp::options_type(extra) == 3) ==> r is Err
        }),
{
}

} // verus!
