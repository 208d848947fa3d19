//! Error codes of the OApp, OFT and Counter contracts, and failures in decoding bytes.
use vstd::prelude::*;

verus! {

/// OApp library errors.
#[derive(Debug, Clone, Copy, PartialEq, Eq, Structural)]
pub enum OAppError {
    InvalidOptions,
    NoPeer,
    OnlyPeer,
    ZroTokenUnavailable,
}

/// OFT library errors.
#[derive(Debug, Clone, Copy, PartialEq, Eq, Structural)]
pub enum OFTError {
    InvalidAddress,
    InvalidAmount,
    InvalidLocalDecimals,
    NotInitialized,
    Overflow,
    SlippageExceeded,
}

/// Counter application errors.
#[derive(Debug, Clone, Copy, PartialEq, Eq, Structural)]
pub enum CounterError {
    OAppInvalidNonce,
    InvalidMsgValue,
    InsufficientValue,
    InvalidMsgType,
}

/// Failures in reading a byte string that aborts the contract call without an error code of
/// its own (reading past the end, a message type out of range, a value of the wrong width).
#[derive(Debug, Clone, Copy, PartialEq, Eq, Structural)]
pub enum DecodeError {
    EndOfInput,
    UnknownMsgType,
    BadLength,
}

/// Why a contract call fails, for the operations whose failures come from more than one
/// source. `Overflow` is an arithmetic overflow, which aborts the call.
#[derive(Debug, Clone, Copy, PartialEq, Eq, Structural)]
pub enum Failure {
    OApp(OAppError),
    Oft(OFTError),
    Counter(CounterError),
    Decode(DecodeError),
    Overflow,
}

} // verus!
