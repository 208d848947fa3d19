//! The storage keys of the contracts and where each entry lives.
use vstd::prelude::*;

verus! {

/// How long a stored entry lives: with the contract instance, or on its own.
#[derive(Debug, Clone, Copy, PartialEq, Eq, Structural)]
pub enum Durability {
    Instance,
    Persistent,
}

/// Storage of the OApp core.
#[derive(Debug, Clone, Copy, PartialEq, Eq, Structural)]
pub enum OAppCoreStorage {
    /// The endpoint address, set once at initialization.
    Endpoint,
    /// The peer of an endpoint ID.
    Peer { eid: u32 },
}

/// Storage of the type-3 options of an OApp.
#[derive(Debug, Clone, Copy, PartialEq, Eq, Structural)]
pub enum OAppOptionsType3Storage {
    /// The enforced options of an endpoint and message type.
    EnforcedOptions { eid: u32, msg_type: u32 },
}

/// Storage of an OFT.
#[derive(Debug, Clone, Copy, PartialEq, Eq, Structural)]
pub enum OFTStorage {
    /// `local_decimals - shared_decimals`, set once at initialization.
    DecimalsDiff,
    /// The underlying token, set once at initialization.
    Token,
    /// The optional message inspector.
    MsgInspector,
}

/// Storage of the Counter OApp.
#[derive(Debug, Clone, Copy, PartialEq, Eq)]
pub enum CounterStorage {
    /// The local endpoint ID.
    EID,
    /// The highest nonce received on a path.
    MaxReceivedNonce { eid: u32, sender: [u8; 32] },
    /// Whether inbound nonces must arrive in order.
    OrderedNonce,
    /// Number of inbound messages handled.
    Count,
    /// Number of compose messages handled.
    ComposedCount,
    /// Number of messages received from an endpoint.
    InboundCount { eid: u32 },
    /// Number of messages sent to an endpoint.
    OutboundCount { eid: u32 },
}

impl CounterStorage {
    /// Where the entry lives.
    pub fn durability(&self) -> (r: Durability)
        ensures
            r == match self {
                CounterStorage::MaxReceivedNonce { .. } => Durability::Persistent,
                CounterStorage::InboundCount { .. } => Durability::Persistent,
                CounterStorage::OutboundCount { .. } => Durability::Persistent,
                _ => Durability::Instance,
            },
    {
        match self {
            CounterStorage::MaxReceivedNonce { .. } => Durability::Persistent,
            CounterStorage::InboundCount { .. } => Durability::Persistent,
            CounterStorage::OutboundCount { .. } => Durability::Persistent,
            _ => Durability::Instance,
        }
    }
}

impl OAppCoreStorage {
    /// Where the entry lives.
    pub fn durability(&self) -> (r: Durability)
        ensures
            r == match self {
                OAppCoreStorage::Endpoint => Durability::Instance,
                OAppCoreStorage::Peer { .. } => Durability::Persistent,
            },
    {
        match self {
            OAppCoreStorage::Endpoint => Durability::Instance,
            OAppCoreStorage::Peer { .. } => Durability::Persistent,
        }
    }
}

impl OAppOptionsType3Storage {
    /// Where the entry lives.
    pub fn durability(&self) -> (r: Durability)
        ensures
            r == Durability::Persistent,
    {
        Durability::Persistent
    }
}

impl OFTStorage {
    /// Where the entry lives.
    pub fn durability(&self) -> (r: Durability)
        ensures
            r == Durability::Instance,
    {
        Durability::Instance
    }
}

} // verus!
