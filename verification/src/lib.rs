//! Verified core of the LayerZero OApp, OFT and Counter contracts for Soroban.
use vstd::prelude::*;

pub mod bytes;
pub mod counter;
pub mod counter_codec;
pub mod counter_options;
pub mod errors;
pub mod oapp;
pub mod oft_codec;
pub mod oft_core;
pub mod oft_utils;
pub mod storage;
pub mod u256;

verus! {

} // verus!
