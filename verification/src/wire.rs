//! Big-endian integer encodings on byte sequences, as used by every field of
//! the GTPv2 wire format.
use vstd::prelude::*;

verus! {

/// `256` raised to the power `n`.
pub open spec fn pow256(n: nat) -> nat
    decreases n,
{
    if n == 0 {
        1
    } else {
        256 * pow256((n - 1) as nat)
    }
}

/// The unsigned integer that the bytes `s` denote, most significant byte first.
pub open spec fn be_value(s: Seq<u8>) -> nat
    decreases s.len(),
{
    if s.len() == 0 {
        0
    } else {
        be_value(s.drop_last()) * 256 + (s.last() as nat)
    }
}

/// The `n` least significant bytes of `v`, most significant byte first.
pub open spec fn be_bytes(v: nat, n: nat) -> Seq<u8>
    decreases n,
{
    if n == 0 {
        Seq::empty()
    } else {
        be_bytes(v / 256, (n - 1) as nat).push((v % 256) as u8)
    }
}

pub proof fn lemma_pow256_pos(n: nat)
    ensures
        pow256(n) > 0,
    decreases n,
{
    if n > 0 {
        lemma_pow256_pos((n - 1) as nat);
    }
}

/// Reading back `n` bytes written from `v` yields `v` reduced modulo `256^n`.
pub proof fn lemma_be_roundtrip(v: nat, n: nat)
    ensures
        be_bytes(v, n).len() == n,
        be_value(be_bytes(v, n)) == v % pow256(n),
    decreases n,
{
    if n == 0 {
        assert(v % 1 == 0) by (nonlinear_arith);
    } else {
        let m = (n - 1) as nat;
        lemma_be_roundtrip(v / 256, m);
        lemma_pow256_pos(m);
        let bs = be_bytes(v, n);
        assert(bs.drop_last() =~= be_bytes(v / 256, m));
        vstd::arithmetic::div_mod::lemma_mod_breakdown(v as int, 256, pow256(m) as int);
        assert(256 * ((v / 256) % pow256(m)) == ((v / 256) % pow256(m)) * 256) by (nonlinear_arith);
    }
}

/// The value of a concatenation splits at the boundary.
pub proof fn lemma_be_value_append(a: Seq<u8>, b: Seq<u8>)
    ensures
        be_value(a + b) == be_value(a) * pow256(b.len()) + be_value(b),
    decreases b.len(),
{
    if b.len() == 0 {
        assert(a + b =~= a);
        assert(pow256(b.len()) == 1);
        assert(be_value(b) == 0);
    } else {
        let bl = b.drop_last();
        assert((a + b).drop_last() =~= a + bl);
        lemma_be_value_append(a, bl);
        assert((a + b).last() == b.last());
        let x = be_value(a);
        let p = pow256(bl.len());
        let y = be_value(bl);
        assert((x * p + y) * 256 == x * (256 * p) + y * 256) by (nonlinear_arith);
        assert(be_value(a + b) == be_value((a + b).drop_last()) * 256 + ((a + b).last() as nat));
        assert(be_value(b) == y * 256 + (b.last() as nat));
        assert(pow256(b.len()) == 256 * p);
        let q = pow256(b.len());
        assert(x * q == x * (256 * p)) by (nonlinear_arith)
            requires q == 256 * p;
    }
}

/// A value below `256^n` is recovered exactly.
pub proof fn lemma_be_roundtrip_exact(v: nat, n: nat)
    requires
        v < pow256(n),
    ensures
        be_bytes(v, n).len() == n,
        be_value(be_bytes(v, n)) == v,
{
    lemma_be_roundtrip(v, n);
    vstd::arithmetic::div_mod::lemma_small_mod(v, pow256(n));
}

pub proof fn lemma_pow256_values()
    ensures
        pow256(1) == 0x100,
        pow256(2) == 0x1_0000,
        pow256(3) == 0x100_0000,
        pow256(4) == 0x1_0000_0000,
        pow256(5) == 0x100_0000_0000,
{
    reveal_with_fuel(pow256, 6);
}

/// Values are bounded by the width they are read from.
pub proof fn lemma_be_value_bound(s: Seq<u8>)
    ensures
        be_value(s) < pow256(s.len()),
    decreases s.len(),
{
    if s.len() > 0 {
        lemma_be_value_bound(s.drop_last());
        assert(be_value(s.drop_last()) * 256 + s.last() < pow256(s.drop_last().len()) * 256) by (nonlinear_arith)
            requires be_value(s.drop_last()) < pow256(s.drop_last().len()), s.last() < 256;
    }
}

} // verus!
