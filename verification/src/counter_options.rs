//! Executor options that the Counter attaches to the messages it sends back.
use vstd::prelude::*;
use crate::bytes::{be_bytes, lemma_pow256_values, push_be};

verus! {

/// Worker ID of the executor.
pub const EXECUTOR_ID: u8 = 1;

/// Option type of an `lz_receive` executor option.
pub const LZ_RECEIVE_TYPE: u8 = 1;

/// Type-3 options holding one executor `lz_receive` option: the type `3` (2 bytes), the
/// worker ID, the option's length (2 bytes), its type, the gas limit (16 bytes) and, when
/// non-zero, the native value (16 bytes).
pub open spec fn spec_executor_lz_receive_option(gas_limit: u128, value: u128) -> Seq<u8> {
    let head = be_bytes(3, 2) + seq![EXECUTOR_ID];
    if value == 0 {
        head + be_bytes(17, 2) + seq![LZ_RECEIVE_TYPE] + be_bytes(gas_limit as nat, 16)
    } else {
        head + be_bytes(33, 2) + seq![LZ_RECEIVE_TYPE] + be_bytes(gas_limit as nat, 16)
            + be_bytes(value as nat, 16)
    }
}

/// Builds type-3 options with one executor `lz_receive` option.
pub fn executor_lz_receive_option(gas_limit: u128, value: u128) -> (r: Vec<u8>)
    ensures
        r@ == spec_executor_lz_receive_option(gas_limit, value),
{
    proof {
        lemma_pow256_values();
    }
    let mut options: Vec<u8> = Vec::new();
    push_be(&mut options, 3, 2);
    options.push(EXECUTOR_ID);
    let ghost head = options@;
    if value == 0 {
        push_be(&mut options, 16 + 1, 2);
        options.push(LZ_RECEIVE_TYPE);
        push_be(&mut options, gas_limit, 16);
        assert(options@ =~= spec_executor_lz_receive_option(gas_limit, value));
    } else {
        push_be(&mut options, 16 + 16 + 1, 2);
        options.push(LZ_RECEIVE_TYPE);
        push_be(&mut options, gas_limit, 16);
        push_be(&mut options, value, 16);
        assert(options@ =~= spec_executor_lz_receive_option(gas_limit, value));
    }
    options
}

} // verus!
