//! Unsigned 256-bit integers as they appear in Counter messages, and their conversion to `i128`.
use vstd::prelude::*;
use crate::bytes::{
    be_bytes, be_value, lemma_be_bytes_of_value, lemma_be_value_bound, lemma_pow256_values,
    pow256, push_be, read_be,
};

verus! {

/// An unsigned 256-bit integer, held as its high and low 128-bit halves.
#[derive(Clone, Copy, Debug, PartialEq, Eq)]
pub struct U256 {
    hi: u128,
    lo: u128,
}

/// The number that `a + b` denotes is that of `a` shifted past `b`, plus that of `b`.
pub proof fn lemma_be_value_append(a: Seq<u8>, b: Seq<u8>)
    ensures
        be_value(a + b) == be_value(a) * pow256(b.len()) + be_value(b),
    decreases b.len(),
{
    if b.len() == 0 {
        assert(a + b =~= a);
        let x = be_value(a);
        let q = pow256(b.len());
        assert(q == 1);
        assert(x * q == x) by (nonlinear_arith)
            requires q == 1;
    } else {
        let bd = b.drop_last();
        lemma_be_value_append(a, bd);
        assert((a + b).drop_last() =~= a + bd);
        let x = be_value(a);
        let p = pow256(bd.len());
        let y = be_value(bd);
        assert((x * p + y) * 256 == x * (256 * p) + y * 256) by (nonlinear_arith);
        assert((a + b).last() == b.last());
        assert(be_value(a + b) == be_value(a + bd) * 256 + (b.last() as nat));
        assert(be_value(b) == y * 256 + (b.last() as nat));
        assert(pow256(b.len()) == 256 * p);
        let q = pow256(b.len());
        assert(x * q == x * (256 * p)) by (nonlinear_arith)
            requires q == 256 * p;
    }
}

impl View for U256 {
    type V = nat;

    closed spec fn view(&self) -> nat {
        self.hi as nat * pow256(16) + self.lo as nat
    }
}

impl U256 {
    /// The number `value`.
    pub fn from_u32(value: u32) -> (r: U256)
        ensures
            r@ == value,
    {
        U256 { hi: 0, lo: value as u128 }
    }

    /// The number `value`.
    pub fn from_u128(value: u128) -> (r: U256)
        ensures
            r@ == value,
    {
        U256 { hi: 0, lo: value }
    }

    /// The number whose four 64-bit limbs are given from the most significant down.
    pub fn from_parts(hi_hi: u64, hi_lo: u64, lo_hi: u64, lo_lo: u64) -> (r: U256)
        ensures
            r@ == ((hi_hi as nat * pow256(8) + hi_lo as nat) * pow256(16)) + (lo_hi as nat
                * pow256(8) + lo_lo as nat),
    {
        proof {
            lemma_pow256_values();
            assert(hi_hi as nat * pow256(8) + hi_lo as nat <= u128::MAX) by (nonlinear_arith)
                requires
                    hi_hi <= u64::MAX,
                    hi_lo <= u64::MAX,
                    pow256(8) == u64::MAX + 1,
                    u128::MAX == (u64::MAX + 1) * (u64::MAX + 1) - 1,
            ;
            assert(lo_hi as nat * pow256(8) + lo_lo as nat <= u128::MAX) by (nonlinear_arith)
                requires
                    lo_hi <= u64::MAX,
                    lo_lo <= u64::MAX,
                    pow256(8) == u64::MAX + 1,
                    u128::MAX == (u64::MAX + 1) * (u64::MAX + 1) - 1,
            ;
        }
        U256 {
            hi: (hi_hi as u128) * 0x1_0000_0000_0000_0000 + hi_lo as u128,
            lo: (lo_hi as u128) * 0x1_0000_0000_0000_0000 + lo_lo as u128,
        }
    }

    /// The number that 32 big-endian bytes denote; `None` for any other length.
    pub fn from_be_bytes(bytes: &[u8]) -> (r: Option<U256>)
        ensures
            match r {
                Some(v) => bytes@.len() == 32 && v@ == be_value(bytes@),
                None => bytes@.len() != 32,
            },
    {
        if bytes.len() != 32 {
            return None;
        }
        let hi = read_be(bytes, 0, 16);
        let lo = read_be(bytes, 16, 16);
        proof {
            lemma_be_value_append(bytes@.subrange(0, 16), bytes@.subrange(16, 32));
            assert(bytes@.subrange(0, 16) + bytes@.subrange(16, 32) =~= bytes@);
        }
        Some(U256 { hi, lo })
    }

    /// The 32 big-endian bytes of the number.
    pub fn to_be_bytes(&self) -> (r: Vec<u8>)
        ensures
            r@ == be_bytes(self@, 32),
            r@.len() == 32,
    {
        proof {
            lemma_pow256_values();
        }
        let mut out: Vec<u8> = Vec::new();
        push_be(&mut out, self.hi, 16);
        let ghost high = out@;
        push_be(&mut out, self.lo, 16);
        proof {
            crate::bytes::lemma_be_value_of_bytes(self.hi as nat, 16);
            crate::bytes::lemma_be_value_of_bytes(self.lo as nat, 16);
            assert(out@ =~= high + be_bytes(self.lo as nat, 16));
            lemma_be_value_append(high, be_bytes(self.lo as nat, 16));
            lemma_be_bytes_of_value(out@);
        }
        out
    }

    /// The number as a `u128`, if it fits.
    pub fn to_u128(&self) -> (r: Option<u128>)
        ensures
            match r {
                Some(v) => self@ < pow256(16) && v == self@,
                None => self@ >= pow256(16),
            },
    {
        proof {
            lemma_pow256_values();
        }
        if self.hi == 0 {
            Some(self.lo)
        } else {
            proof {
                assert(self.hi as nat * pow256(16) >= pow256(16)) by (nonlinear_arith)
                    requires self.hi >= 1;
            }
            None
        }
    }
}

/// Conversion of a 256-bit unsigned integer to `i128`.
pub trait U256Ext {
    /// Converts to i128 if the value fits; returns None if it is larger than `i128::MAX`.
    fn to_i128(&self) -> (r: Option<i128>)
        ensures
            match r {
                Some(v) => 0 <= v && self.spec_value() == v,
                None => self.spec_value() > i128::MAX,
            },
    ;

    /// The number that the value denotes.
    spec fn spec_value(&self) -> nat;
}

impl U256Ext for U256 {
    open spec fn spec_value(&self) -> nat {
        self@
    }

    fn to_i128(&self) -> (r: Option<i128>) {
        proof {
            lemma_pow256_values();
        }
        match self.to_u128() {
            Some(u128_val) => {
                if u128_val <= i128::MAX as u128 {
                    Some(u128_val as i128)
                } else {
                    None
                }
            },
            None => None,
        }
    }
}

} // verus!
