//! Big-endian integers and fixed-width byte strings, the building blocks of every wire format
//! in this crate.
use vstd::prelude::*;

verus! {

/// `256 ^ n`.
pub open spec fn pow256(n: nat) -> nat
    decreases n,
{
    if n == 0 { 1 } else { 256 * pow256((n - 1) as nat) }
}

/// The number that the bytes `s` denote in big-endian order.
pub open spec fn be_value(s: Seq<u8>) -> nat
    decreases s.len(),
{
    if s.len() == 0 { 0 } else { be_value(s.drop_last()) * 256 + (s.last() as nat) }
}

/// The `n` low-order bytes of `v`, most significant first.
pub open spec fn be_bytes(v: nat, n: nat) -> Seq<u8>
    decreases n,
{
    if n == 0 { Seq::empty() } else { be_bytes(v / 256, (n - 1) as nat).push((v % 256) as u8) }
}

/// The two's-complement bit pattern of a 128-bit signed value, as an unsigned number.
pub open spec fn i128_bits(v: int) -> nat {
    if v >= 0 { v as nat } else { (v + pow256(16)) as nat }
}

/// The signed 128-bit value whose two's-complement bit pattern is `u`.
pub open spec fn i128_of_bits(u: nat) -> int {
    if u < pow256(16) / 2 { u as int } else { u - pow256(16) }
}

/// The powers of 256 that bound the integer widths used here.
pub proof fn lemma_pow256_values()
    ensures
        pow256(0) == 1,
        pow256(1) == 0x100,
        pow256(2) == 0x1_0000,
        pow256(4) == 0x1_0000_0000,
        pow256(8) == 0x1_0000_0000_0000_0000,
        pow256(16) == 0x1_0000_0000_0000_0000_0000_0000_0000_0000,
        pow256(16) == u128::MAX + 1,
        pow256(16) / 2 == i128::MAX + 1,
{
    reveal_with_fuel(pow256, 17);
}

/// Every power of 256 is at least 1.
pub proof fn lemma_pow256_pos(n: nat)
    ensures
        pow256(n) >= 1,
    decreases n,
{
    if n > 0 {
        lemma_pow256_pos((n - 1) as nat);
    }
}

/// Powers of 256 grow with the exponent.
pub proof fn lemma_pow256_mono(m: nat, n: nat)
    requires
        m <= n,
    ensures
        pow256(m) <= pow256(n),
    decreases n,
{
    if m < n {
        lemma_pow256_mono(m, (n - 1) as nat);
    }
}

/// The big-endian encoding at width `n` has `n` bytes.
pub proof fn lemma_be_bytes_len(v: nat, n: nat)
    ensures
        be_bytes(v, n).len() == n,
    decreases n,
{
    if n > 0 {
        lemma_be_bytes_len(v / 256, (n - 1) as nat);
    }
}

/// Decoding the big-endian bytes of a number that fits gives the number back.
pub proof fn lemma_be_value_of_bytes(v: nat, n: nat)
    requires
        v < pow256(n),
    ensures
        be_value(be_bytes(v, n)) == v,
        be_bytes(v, n).len() == n,
    decreases n,
{
    lemma_be_bytes_len(v, n);
    if n > 0 {
        let p = pow256((n - 1) as nat);
        assert(v / 256 < p) by {
            assert(v < 256 * p);
        }
        lemma_be_value_of_bytes(v / 256, (n - 1) as nat);
        let s = be_bytes(v, n);
        assert(s.drop_last() =~= be_bytes(v / 256, (n - 1) as nat));
    } else {
        assert(v == 0);
    }
}

/// A big-endian byte string denotes a number below `256 ^ len`.
pub proof fn lemma_be_value_bound(s: Seq<u8>)
    ensures
        be_value(s) < pow256(s.len()),
    decreases s.len(),
{
    if s.len() > 0 {
        lemma_be_value_bound(s.drop_last());
    }
}

/// Encoding the number that a byte string denotes, at the string's width, gives the string back.
pub proof fn lemma_be_bytes_of_value(s: Seq<u8>)
    ensures
        be_bytes(be_value(s), s.len()) == s,
    decreases s.len(),
{
    if s.len() > 0 {
        let d = s.drop_last();
        lemma_be_bytes_of_value(d);
        let v = be_value(s);
        assert(v / 256 == be_value(d));
        assert(v % 256 == s.last());
        assert(be_bytes(v, s.len()) =~= s);
    } else {
        assert(be_bytes(be_value(s), 0) =~= s);
    }
}

/// Reading back the two's-complement bits of an `i128` value gives the value.
pub proof fn lemma_i128_bits_roundtrip(v: int)
    requires
        i128::MIN <= v <= i128::MAX,
    ensures
        i128_bits(v) < pow256(16),
        i128_of_bits(i128_bits(v)) == v,
{
    lemma_pow256_values();
}

/// Every 128-bit pattern is the two's-complement bits of the `i128` value it denotes.
pub proof fn lemma_i128_of_bits_roundtrip(u: nat)
    requires
        u < pow256(16),
    ensures
        i128::MIN <= i128_of_bits(u) <= i128::MAX,
        i128_bits(i128_of_bits(u)) == u,
{
    lemma_pow256_values();
}

/// Appends the `n` low-order bytes of `v`, most significant first.
pub fn push_be(out: &mut Vec<u8>, v: u128, n: usize)
    requires
        n <= 16,
        v < pow256(n as nat),
    ensures
        final(out)@ == old(out)@ + be_bytes(v as nat, n as nat),
    decreases n,
{
    if n == 0 {
        assert(old(out)@ + be_bytes(v as nat, 0) =~= old(out)@);
    } else {
        proof {
            let p = pow256((n - 1) as nat);
            assert(v / 256 < p) by {
                assert(v < 256 * p);
            }
        }
        push_be(out, v / 256, n - 1);
        out.push((v % 256) as u8);
        assert(final(out)@ =~= old(out)@ + be_bytes(v as nat, n as nat));
    }
}

/// The number that `data[start .. start + n]` denotes in big-endian order.
pub fn read_be(data: &[u8], start: usize, n: usize) -> (r: u128)
    requires
        n <= 16,
        start + n <= data@.len(),
    ensures
        r == be_value(data@.subrange(start as int, start + n)),
{
    let mut acc: u128 = 0;
    let mut i: usize = 0;
    proof {
        lemma_pow256_values();
        assert(data@.subrange(start as int, start as int) =~= Seq::<u8>::empty());
    }
    while i < n
        invariant
            i <= n <= 16,
            start + n <= data.len(),
            acc == be_value(data@.subrange(start as int, start + i)),
            acc < pow256(i as nat),
        decreases n - i,
    {
        proof {
            lemma_pow256_mono((i + 1) as nat, 16);
            lemma_pow256_values();
            assert(data@.subrange(start as int, start + i + 1).drop_last()
                =~= data@.subrange(start as int, start + i));
        }
        acc = acc * 256 + data[start + i] as u128;
        i = i + 1;
    }
    acc
}

/// Appends all of `src`.
pub fn push_all(out: &mut Vec<u8>, src: &[u8])
    ensures
        final(out)@ == old(out)@ + src@,
{
    let mut i: usize = 0;
    while i < src.len()
        invariant
            i <= src@.len(),
            out@ == old(out)@ + src@.subrange(0, i as int),
        decreases src@.len() - i,
    {
        out.push(src[i]);
        i = i + 1;
        assert(out@ =~= old(out)@ + src@.subrange(0, i as int));
    }
    assert(src@.subrange(0, src@.len() as int) =~= src@);
}

/// A copy of `data[start .. end]`.
pub fn copy_range(data: &[u8], start: usize, end: usize) -> (r: Vec<u8>)
    requires
        start <= end <= data@.len(),
    ensures
        r@ == data@.subrange(start as int, end as int),
{
    let mut r: Vec<u8> = Vec::new();
    let mut i: usize = start;
    while i < end
        invariant
            start <= i <= end <= data@.len(),
            r@ == data@.subrange(start as int, i as int),
        decreases end - i,
    {
        r.push(data[i]);
        i = i + 1;
        assert(r@ =~= data@.subrange(start as int, i as int));
    }
    r
}

/// The 32 bytes `data[start .. start + 32]`.
pub fn read_bytes32(data: &[u8], start: usize) -> (r: [u8; 32])
    requires
        start + 32 <= data@.len(),
    ensures
        r@ == data@.subrange(start as int, start + 32),
{
    let mut r: [u8; 32] = [0u8; 32];
    let mut i: usize = 0;
    while i < 32
        invariant
            i <= 32,
            start + 32 <= data.len(),
            r@.len() == 32,
            forall|j: int| 0 <= j < i ==> r@[j] == data@[start + j],
        decreases 32 - i,
    {
        r[i] = data[start + i];
        i = i + 1;
    }
    assert(r@ =~= data@.subrange(start as int, start + 32));
    r
}

/// Whether two 32-byte strings are equal.
pub fn bytes32_eq(a: &[u8; 32], b: &[u8; 32]) -> (r: bool)
    ensures
        r == (a@ == b@),
{
    let mut i: usize = 0;
    while i < 32
        invariant
            i <= 32,
            a@.len() == 32,
            b@.len() == 32,
            forall|j: int| 0 <= j < i ==> a@[j] == b@[j],
        decreases 32 - i,
    {
        if a[i] != b[i] {
            return false;
        }
        i = i + 1;
    }
    assert(a@ =~= b@);
    true
}

/// The two's-complement bit pattern of `v`.
pub fn i128_to_bits(v: i128) -> (r: u128)
    ensures
        r == i128_bits(v as int),
{
    proof {
        lemma_pow256_values();
    }
    if v >= 0 {
        v as u128
    } else {
        u128::MAX - ((-(v + 1)) as u128)
    }
}

/// The signed value whose two's-complement bit pattern is `u`.
pub fn i128_from_bits(u: u128) -> (r: i128)
    ensures
        r == i128_of_bits(u as nat),
{
    proof {
        lemma_pow256_values();
    }
    if u <= i128::MAX as u128 {
        u as i128
    } else {
        -((u128::MAX - u) as i128) - 1
    }
}

} // verus!
