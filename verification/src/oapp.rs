//! OApp building blocks: peers, type-3 executor options, fee payment decisions and versions.
use vstd::prelude::*;
use crate::bytes::{be_value, lemma_pow256_values, read_be, copy_range, push_all, bytes32_eq};
use crate::errors::{DecodeError, Failure, OAppError};

verus! {

/// The version of the OAppSender implementation.
pub const SENDER_VERSION: u64 = 1;

/// The version of the OAppReceiver implementation.
pub const RECEIVER_VERSION: u64 = 1;

/// The only options type that can be combined with enforced options.
pub const OPTION_TYPE3: u16 = 3;

/// The source of an inbound message: endpoint ID, sender and nonce of the path.
#[derive(Clone, Copy, Debug, PartialEq, Eq)]
pub struct Origin {
    pub src_eid: u32,
    pub sender: [u8; 32],
    pub nonce: u64,
}

/// A messaging fee, in the native token and in ZRO.
#[derive(Clone, Copy, Debug, PartialEq, Eq, Structural)]
pub struct MessagingFee {
    pub native_fee: i128,
    pub zro_fee: i128,
}

/// Enforced options for an endpoint and message type; `None` removes them.
#[derive(Clone, Debug, PartialEq, Eq)]
pub struct EnforcedOptionParam {
    pub eid: u32,
    pub msg_type: u32,
    pub options: Option<Vec<u8>>,
}

/// Sender and receiver versions of the OApp.
pub fn oapp_version() -> (r: (u64, u64))
    ensures
        r == (SENDER_VERSION, RECEIVER_VERSION),
{
    (SENDER_VERSION, RECEIVER_VERSION)
}

/// The options type that the first two bytes of `options` carry.
pub open spec fn options_type(options: Seq<u8>) -> nat {
    be_value(options.subrange(0, 2))
}

/// The outcome of checking that `options` are of type 3: reading the type needs two bytes.
pub open spec fn spec_check_option_type3(options: Seq<u8>) -> Result<(), Failure> {
    if options.len() < 2 {
        Err(Failure::Decode(DecodeError::EndOfInput))
    } else if options_type(options) != 3 {
        Err(Failure::OApp(OAppError::InvalidOptions))
    } else {
        Ok(())
    }
}

/// Asserts that the provided options are of type 3.
pub fn assert_option_type3(options: &[u8]) -> (r: Result<(), Failure>)
    ensures
        r == spec_check_option_type3(options@),
{
    if options.len() < 2 {
        return Err(Failure::Decode(DecodeError::EndOfInput));
    }
    let options_type = read_be(options, 0, 2);
    if options_type == OPTION_TYPE3 as u128 {
        Ok(())
    } else {
        Err(Failure::OApp(OAppError::InvalidOptions))
    }
}

/// The options sent with a message, given the enforced options for its endpoint and message
/// type and the caller's extra options.
pub open spec fn spec_combine_options(enforced: Option<Seq<u8>>, extra: Seq<u8>) -> Result<
    Seq<u8>,
    OAppError,
> {
    match enforced {
        None => Ok(extra),
        Some(e) => if extra.len() == 0 {
            Ok(e)
        } else if extra.len() >= 2 && options_type(extra) == 3 {
            Ok(e + extra.subrange(2, extra.len() as int))
        } else {
            Err(OAppError::InvalidOptions)
        },
    }
}

/// Combines the enforced options with the caller's extra options: with nothing enforced, the
/// extra options pass as they are; with no extra options, the enforced ones do; otherwise the
/// extra options must be of type 3, and their body (without the 2-byte type) is appended to
/// the enforced options.
pub fn combine_options(enforced: &Option<Vec<u8>>, extra_options: &[u8]) -> (r: Result<
    Vec<u8>,
    OAppError,
>)
    ensures
        match r {
            Ok(v) => spec_combine_options(
                match enforced {
                    Some(e) => Some(e@),
                    None => None,
                },
                extra_options@,
            ) == Ok::<Seq<u8>, OAppError>(v@),
            Err(e) => spec_combine_options(
                match enforced {
                    Some(e) => Some(e@),
                    None => None,
                },
                extra_options@,
            ) == Err::<Seq<u8>, OAppError>(e),
        },
{
    match enforced {
        None => {
            assert(extra_options@.subrange(0, extra_options@.len() as int) =~= extra_options@);
            Ok(copy_range(extra_options, 0, extra_options.len()))
        },
        Some(e) => {
            if extra_options.len() == 0 {
                assert(e@.subrange(0, e@.len() as int) =~= e@);
                return Ok(copy_range(e.as_slice(), 0, e.len()));
            }
            if extra_options.len() >= 2 {
                match assert_option_type3(extra_options) {
                    Ok(()) => {},
                    Err(_) => return Err(OAppError::InvalidOptions),
                }
                let mut combined = copy_range(e.as_slice(), 0, e.len());
                let body = copy_range(extra_options, 2, extra_options.len());
                push_all(&mut combined, body.as_slice());
                assert(e@.subrange(0, e@.len() as int) =~= e@);
                return Ok(combined);
            }
            Err(OAppError::InvalidOptions)
        },
    }
}

/// The outcome of checking one enforced options parameter.
pub open spec fn spec_check_param(p: EnforcedOptionParam) -> Result<(), Failure> {
    match p.options {
        Some(o) => spec_check_option_type3(o@),
        None => Ok(()),
    }
}

/// Combining keeps the options type: options combined from type-3 enforced options are of
/// type 3 and start with the enforced options; with nothing enforced, the extra options pass
/// unchanged; with no extra options, the enforced ones do.
pub proof fn law_combine_options(enforced: Option<Seq<u8>>, extra: Seq<u8>)
    ensures
        enforced is None ==> spec_combine_options(enforced, extra) == Ok::<Seq<u8>, OAppError>(
            extra,
        ),
        enforced matches Some(e) ==> (extra.len() == 0 ==> spec_combine_options(enforced, extra)
            == Ok::<Seq<u8>, OAppError>(e)),
        enforced matches Some(e) ==> (spec_check_option_type3(e) is Ok && (spec_combine_options(
            enforced,
            extra,
        ) is Ok) ==> ({
            let c = spec_combine_options(enforced, extra).unwrap();
            spec_check_option_type3(c) is Ok && c.subrange(0, e.len() as int) == e
        })),
{
    if let Some(e) = enforced {
        if spec_combine_options(enforced, extra) is Ok {
            let c = spec_combine_options(enforced, extra).unwrap();
            if e.len() >= 2 {
                assert(c.subrange(0, 2) =~= e.subrange(0, 2));
                assert(c.subrange(0, e.len() as int) =~= e);
            }
        }
    }
}

/// Whether every options value in `params` is of type 3.
pub open spec fn enforced_params_valid(params: Seq<EnforcedOptionParam>) -> bool {
    forall|i: int| 0 <= i < params.len() ==> (#[trigger] spec_check_param(params[i])) is Ok
}

/// Checks the options of `set_enforced_options`: fails with the error of the first options
/// that are not of type 3.
pub fn check_enforced_options(params: &Vec<EnforcedOptionParam>) -> (r: Result<(), Failure>)
    ensures
        r is Ok <==> enforced_params_valid(params@),
        r matches Err(e) ==> exists|i: int|
            0 <= i < params@.len() && enforced_params_valid(params@.take(i))
                && #[trigger] spec_check_param(params@[i]) == Err::<(), Failure>(e),
{
    let mut i: usize = 0;
    while i < params.len()
        invariant
            i <= params@.len(),
            enforced_params_valid(params@.take(i as int)),
        decreases params@.len() - i,
    {
        match &params[i].options {
            Some(o) => {
                match assert_option_type3(o.as_slice()) {
                    Ok(()) => {},
                    Err(e) => {
                        assert(spec_check_param(params@[i as int]) == Err::<(), Failure>(e));
                        return Err(e);
                    },
                }
            },
            None => {},
        }
        assert(spec_check_param(params@[i as int]) is Ok);
        assert forall|j: int| 0 <= j < i + 1 implies (#[trigger] spec_check_param(
            params@.take(i + 1)[j],
        )) is Ok by {
            if j < i {
                assert(params@.take(i + 1)[j] == params@.take(i as int)[j]);
            }
        }
        i = i + 1;
    }
    assert(params@.take(params@.len() as int) =~= params@);
    Ok(())
}

/// The enforced options of a key as a map entry: present when set, absent when removed.
pub open spec fn apply_param(m: Map<(u32, u32), Seq<u8>>, p: EnforcedOptionParam) -> Map<
    (u32, u32),
    Seq<u8>,
> {
    match p.options {
        Some(o) => m.insert((p.eid, p.msg_type), o@),
        None => m.remove((p.eid, p.msg_type)),
    }
}

/// The enforced options after setting or removing each parameter in order.
pub open spec fn apply_params(m: Map<(u32, u32), Seq<u8>>, params: Seq<EnforcedOptionParam>) -> Map<
    (u32, u32),
    Seq<u8>,
>
    decreases params.len(),
{
    if params.len() == 0 {
        m
    } else {
        apply_param(apply_params(m, params.drop_last()), params.last())
    }
}

/// The latest parameter in `params` for a key, if any.
pub open spec fn last_param_for(params: Seq<EnforcedOptionParam>, key: (u32, u32)) -> Option<
    EnforcedOptionParam,
>
    decreases params.len(),
{
    if params.len() == 0 {
        None
    } else if (params.last().eid, params.last().msg_type) == key {
        Some(params.last())
    } else {
        last_param_for(params.drop_last(), key)
    }
}

/// The enforced options of a key in a log of writes: the latest write, if it set options.
pub open spec fn options_of(log: Seq<EnforcedOptionParam>, key: (u32, u32)) -> Option<Seq<u8>> {
    match last_param_for(log, key) {
        Some(p) => match p.options {
            Some(o) => Some(o@),
            None => None,
        },
        None => None,
    }
}

pub open spec fn options_map(log: Seq<EnforcedOptionParam>) -> Map<(u32, u32), Seq<u8>> {
    Map::new(|k: (u32, u32)| options_of(log, k) is Some, |k: (u32, u32)| options_of(log, k).unwrap())
}

/// The enforced options of an OApp, per endpoint and message type; kept as a log of writes
/// in which the latest write of a key wins.
pub struct EnforcedOptions {
    writes: Vec<EnforcedOptionParam>,
}

impl View for EnforcedOptions {
    type V = Map<(u32, u32), Seq<u8>>;

    closed spec fn view(&self) -> Map<(u32, u32), Seq<u8>> {
        options_map(self.writes@)
    }
}

proof fn lemma_options_push(log: Seq<EnforcedOptionParam>, p: EnforcedOptionParam)
    ensures
        options_map(log.push(p)) == apply_param(options_map(log), p),
{
    assert(log.push(p).drop_last() =~= log);
    assert(options_map(log.push(p)) =~= apply_param(options_map(log), p));
}

/// A copy of an options parameter.
fn copy_param(p: &EnforcedOptionParam) -> (r: EnforcedOptionParam)
    ensures
        r.eid == p.eid,
        r.msg_type == p.msg_type,
        match (r.options, p.options) {
            (Some(a), Some(b)) => a@ == b@,
            (None, None) => true,
            _ => false,
        },
{
    let options = match &p.options {
        Some(o) => Some(copy_range(o.as_slice(), 0, o.len())),
        None => None,
    };
    proof {
        assert forall|o: Vec<u8>| p.options == Some(o) implies o@.subrange(0, o@.len() as int)
            == o@ by {
            assert(o@.subrange(0, o@.len() as int) =~= o@);
        }
    }
    EnforcedOptionParam { eid: p.eid, msg_type: p.msg_type, options }
}

impl EnforcedOptions {
    /// No enforced options.
    pub fn new() -> (r: EnforcedOptions)
        ensures
            r@ == Map::<(u32, u32), Seq<u8>>::empty(),
    {
        let r = EnforcedOptions { writes: Vec::new() };
        assert(r@ =~= Map::<(u32, u32), Seq<u8>>::empty());
        r
    }

    /// The enforced options for an endpoint and message type.
    pub fn enforced_options(&self, eid: u32, msg_type: u32) -> (r: Option<Vec<u8>>)
        ensures
            match r {
                Some(o) => self@.contains_key((eid, msg_type)) && self@[(eid, msg_type)] == o@,
                None => !self@.contains_key((eid, msg_type)),
            },
    {
        let mut j: usize = self.writes.len();
        assert(self.writes@.take(j as int) =~= self.writes@);
        while j > 0
            invariant
                j <= self.writes@.len(),
                last_param_for(self.writes@, (eid, msg_type)) == last_param_for(
                    self.writes@.take(j as int),
                    (eid, msg_type),
                ),
            decreases j,
        {
            assert(self.writes@.take(j as int).drop_last() =~= self.writes@.take(j - 1));
            let w = &self.writes[j - 1];
            if w.eid == eid && w.msg_type == msg_type {
                return match &w.options {
                    Some(o) => {
                        let c = copy_range(o.as_slice(), 0, o.len());
                        assert(c@ =~= o@);
                        Some(c)
                    },
                    None => None,
                };
            }
            j = j - 1;
        }
        None
    }

    /// Sets or removes the enforced options of each parameter in order, after checking that
    /// every options value is of type 3; when one is not, nothing changes and the error is
    /// that of the first options value that is not.
    pub fn set_enforced_options(&mut self, params: &Vec<EnforcedOptionParam>) -> (r: Result<
        (),
        Failure,
    >)
        ensures
            r is Ok <==> enforced_params_valid(params@),
            r is Ok ==> final(self)@ == apply_params(old(self)@, params@),
            r is Err ==> final(self)@ == old(self)@,
            r matches Err(e) ==> exists|i: int|
                0 <= i < params@.len() && enforced_params_valid(params@.take(i))
                    && #[trigger] spec_check_param(params@[i]) == Err::<(), Failure>(e),
    {
        match check_enforced_options(params) {
            Ok(()) => {},
            Err(e) => return Err(e),
        }
        let mut i: usize = 0;
        while i < params.len()
            invariant
                i <= params@.len(),
                self@ == apply_params(old(self)@, params@.take(i as int)),
            decreases params@.len() - i,
        {
            let p = copy_param(&params[i]);
            proof {
                lemma_options_push(self.writes@, p);
                assert(params@.take(i + 1).drop_last() =~= params@.take(i as int));
                assert(apply_param(self@, p) == apply_param(self@, params@[i as int])) by {
                    assert(apply_param(self@, p) =~= apply_param(self@, params@[i as int]));
                }
            }
            self.writes.push(p);
            i = i + 1;
        }
        assert(params@.take(params@.len() as int) =~= params@);
        Ok(())
    }

    /// Combines the enforced options of an endpoint and message type with extra options.
    pub fn combine_options(&self, eid: u32, msg_type: u32, extra_options: &[u8]) -> (r: Result<
        Vec<u8>,
        OAppError,
    >)
        ensures
            match r {
                Ok(v) => spec_combine_options(
                    if self@.contains_key((eid, msg_type)) {
                        Some(self@[(eid, msg_type)])
                    } else {
                        None
                    },
                    extra_options@,
                ) == Ok::<Seq<u8>, OAppError>(v@),
                Err(e) => spec_combine_options(
                    if self@.contains_key((eid, msg_type)) {
                        Some(self@[(eid, msg_type)])
                    } else {
                        None
                    },
                    extra_options@,
                ) == Err::<Seq<u8>, OAppError>(e),
            },
    {
        let enforced = self.enforced_options(eid, msg_type);
        combine_options(&enforced, extra_options)
    }
}

/// Reading enforced options gives back the latest write of the key: after a successful
/// `set_enforced_options`, a key that some parameter names holds the options of the last such
/// parameter (or none, if it removed them), and every other key is unchanged.
pub proof fn law_enforced_options_read_write(
    m: Map<(u32, u32), Seq<u8>>,
    params: Seq<EnforcedOptionParam>,
    key: (u32, u32),
)
    ensures
        ({
            let m2 = apply_params(m, params);
            match last_param_for(params, key) {
                Some(p) => match p.options {
                    Some(o) => m2.contains_key(key) && m2[key] == o@,
                    None => !m2.contains_key(key),
                },
                None => m2.contains_key(key) == m.contains_key(key) && (m.contains_key(key)
                    ==> m2[key] == m[key]),
            }
        }),
    decreases params.len(),
{
    if params.len() > 0 {
        law_enforced_options_read_write(m, params.drop_last(), key);
    }
}

/// Whether a messaging path may be initialized: the origin's sender is the configured peer.
pub fn allow_initialize_path(peer: &Option<[u8; 32]>, origin: &Origin) -> (r: bool)
    ensures
        r == match peer {
            Some(p) => p@ == origin.sender@,
            None => false,
        },
{
    match peer {
        Some(p) => bytes32_eq(p, &origin.sender),
        None => false,
    }
}

/// The next nonce that an OApp without ordered delivery reports: 0.
pub fn default_next_nonce() -> (r: u64)
    ensures
        r == 0,
{
    0
}

/// The peer configured for an endpoint; fails with `NoPeer` when there is none.
pub fn get_peer_or_panic(peer: &Option<[u8; 32]>) -> (r: Result<[u8; 32], OAppError>)
    ensures
        match peer {
            Some(p) => r == Ok::<[u8; 32], OAppError>(*p),
            None => r == Err::<[u8; 32], OAppError>(OAppError::NoPeer),
        },
{
    match peer {
        Some(p) => Ok(*p),
        None => Err(OAppError::NoPeer),
    }
}

/// Checks that an inbound message comes from the configured peer: `NoPeer` when none is
/// configured, `OnlyPeer` when the sender differs.
pub fn check_peer(peer: &Option<[u8; 32]>, origin: &Origin) -> (r: Result<(), OAppError>)
    ensures
        match peer {
            None => r == Err::<(), OAppError>(OAppError::NoPeer),
            Some(p) => if p@ == origin.sender@ {
                r is Ok
            } else {
                r == Err::<(), OAppError>(OAppError::OnlyPeer)
            },
        },
{
    match peer {
        None => Err(OAppError::NoPeer),
        Some(p) => if bytes32_eq(p, &origin.sender) {
            Ok(())
        } else {
            Err(OAppError::OnlyPeer)
        },
    }
}

/// The ZRO token that ZRO fees are paid in; `ZroTokenUnavailable` when the endpoint has none.
pub fn require_zro_token<A>(zro: Option<A>) -> (r: Result<A, OAppError>)
    ensures
        match zro {
            Some(t) => r == Ok::<A, OAppError>(t),
            None => r == Err::<A, OAppError>(OAppError::ZroTokenUnavailable),
        },
{
    match zro {
        Some(t) => Ok(t),
        None => Err(OAppError::ZroTokenUnavailable),
    }
}

/// Whether native value has to move from the executor to the OApp on receipt.
pub fn transfers_value(value: i128) -> (r: bool)
    ensures
        r == (value != 0),
{
    value != 0
}

/// Whether a fee is paid partly in ZRO: any non-zero ZRO fee, so that a negative one reaches
/// the token transfer and fails there.
pub fn pays_in_zro(fee: &MessagingFee) -> (r: bool)
    ensures
        r == (fee.zro_fee != 0),
{
    fee.zro_fee != 0
}

/// A fee payer address, with whether its authorization has already been required.
#[derive(Clone, Debug, PartialEq, Eq)]
pub enum FeePayer<A> {
    /// Not authorized yet: sending requires its authorization first.
    Unverified(A),
    /// Already authorized by the caller in this invocation.
    Verified(A),
}

impl<A> FeePayer<A> {
    /// The underlying address.
    pub fn address(&self) -> (r: &A)
        ensures
            match self {
                FeePayer::Unverified(a) => r == a,
                FeePayer::Verified(a) => r == a,
            },
    {
        match self {
            FeePayer::Unverified(addr) => addr,
            FeePayer::Verified(addr) => addr,
        }
    }

    /// Whether sending must require the payer's authorization.
    pub fn needs_auth(&self) -> (r: bool)
        ensures
            r == (self is Unverified),
    {
        match self {
            FeePayer::Unverified(_) => true,
            FeePayer::Verified(_) => false,
        }
    }
}

} // verus!
