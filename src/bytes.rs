//! Integers as sequences of bytes, and the byte-reversal primitive.
use vstd::prelude::*;

verus! {

/// `256` raised to the power `n`: one more than the largest value that fits
/// in `n` bytes.
pub open spec fn pow256(n: nat) -> nat
    decreases n,
{
    if n == 0 {
        1
    } else {
        256 * pow256((n - 1) as nat)
    }
}

/// The `n` low bytes of `v`, least significant first.
pub open spec fn le_bytes(v: nat, n: nat) -> Seq<u8>
    decreases n,
{
    if n == 0 {
        Seq::empty()
    } else {
        seq![(v % 256) as u8] + le_bytes(v / 256, (n - 1) as nat)
    }
}

/// The number whose bytes, least significant first, are `s`.
pub open spec fn from_le(s: Seq<u8>) -> nat
    decreases s.len(),
{
    if s.len() == 0 {
        0
    } else {
        s[0] as nat + 256 * from_le(s.drop_first())
    }
}

/// The number whose `n` bytes are those of `v` in the opposite order.
pub open spec fn reversed_bytes(v: nat, n: nat) -> nat {
    from_le(le_bytes(v, n).reverse())
}

pub proof fn lemma_pow256_monotonic(k: nat, n: nat)
    requires
        k <= n,
    ensures
        pow256(k) <= pow256(n),
    decreases n,
{
    if k < n {
        lemma_pow256_monotonic(k, (n - 1) as nat);
    }
}

pub proof fn lemma_le_bytes_len(v: nat, n: nat)
    ensures
        le_bytes(v, n).len() == n,
    decreases n,
{
    if n > 0 {
        lemma_le_bytes_len(v / 256, (n - 1) as nat);
    }
}

/// A sequence of `n` bytes denotes a number that fits in `n` bytes.
pub proof fn lemma_from_le_bound(s: Seq<u8>)
    ensures
        from_le(s) < pow256(s.len()),
    decreases s.len(),
{
    if s.len() > 0 {
        lemma_from_le_bound(s.drop_first());
    }
}

/// Reading a sequence of bytes as a number and writing the number back as
/// bytes gives the sequence again.
pub proof fn lemma_le_bytes_from_le(s: Seq<u8>)
    ensures
        le_bytes(from_le(s), s.len()) == s,
    decreases s.len(),
{
    if s.len() > 0 {
        let t = s.drop_first();
        lemma_le_bytes_from_le(t);
        let v = from_le(s);
        assert(v % 256 == s[0] as nat && v / 256 == from_le(t)) by (nonlinear_arith)
            requires
                v == s[0] as nat + 256 * from_le(t),
                s[0] < 256,
        ;
        assert(le_bytes(v, s.len()) =~= s);
    }
}

/// Writing a number that fits in `n` bytes as `n` bytes and reading them back
/// gives the number again.
pub proof fn lemma_from_le_le_bytes(v: nat, n: nat)
    requires
        v < pow256(n),
    ensures
        from_le(le_bytes(v, n)) == v,
    decreases n,
{
    if n > 0 {
        let p = pow256((n - 1) as nat);
        assert(v / 256 < p) by (nonlinear_arith)
            requires
                v < 256 * p,
        ;
        lemma_from_le_le_bytes(v / 256, (n - 1) as nat);
        assert(le_bytes(v, n).drop_first() =~= le_bytes(v / 256, (n - 1) as nat));
    }
}

/// Reversing the bytes of a value that fits in `n` bytes gives a value that
/// fits in `n` bytes, whose bytes are those of the original reversed.
pub proof fn lemma_reversed_bytes(v: nat, n: nat)
    ensures
        reversed_bytes(v, n) < pow256(n),
        le_bytes(reversed_bytes(v, n), n) == le_bytes(v, n).reverse(),
{
    lemma_le_bytes_len(v, n);
    lemma_from_le_bound(le_bytes(v, n).reverse());
    lemma_le_bytes_from_le(le_bytes(v, n).reverse());
}

/// Reversing the bytes twice gives back a value that fits in `n` bytes.
pub proof fn lemma_reversed_bytes_involutive(v: nat, n: nat)
    requires
        v < pow256(n),
    ensures
        reversed_bytes(reversed_bytes(v, n), n) == v,
{
    lemma_reversed_bytes(v, n);
    assert(le_bytes(v, n).reverse().reverse() =~= le_bytes(v, n));
    lemma_from_le_le_bytes(v, n);
}

/// Reverses the order of the `n` low bytes of `v`.
pub(crate) fn reverse_low_bytes(v: u128, n: u32) -> (r: u128)
    requires
        n <= 16,
        v < pow256(n as nat),
    ensures
        r == reversed_bytes(v as nat, n as nat),
{
    let ghost s = le_bytes(v as nat, n as nat);
    let mut x: u128 = v;
    let mut r: u128 = 0;
    let mut k: u32 = 0;
    proof {
        lemma_le_bytes_len(v as nat, n as nat);
        lemma_pow256_monotonic(n as nat, 16);
        reveal_with_fuel(pow256, 17);
        assert(pow256(16) == 0x1_0000_0000_0000_0000_0000_0000_0000_0000);
        assert(s.skip(0) =~= s);
        assert(s.take(0).reverse() =~= Seq::<u8>::empty());
    }
    while k < n
        invariant
            k <= n <= 16,
            s == le_bytes(v as nat, n as nat),
            s.len() == n,
            s.skip(k as int) == le_bytes(x as nat, (n - k) as nat),
            r == from_le(s.take(k as int).reverse()),
            r < pow256(k as nat),
            pow256(n as nat) <= 0x1_0000_0000_0000_0000_0000_0000_0000_0000,
        decreases n - k,
    {
        proof {
            let m = (n - k) as nat;
            assert(s[k as int] == s.skip(k as int)[0]);
            assert(s.skip(k + 1) =~= s.skip(k as int).drop_first());
            let front = s.take(k + 1).reverse();
            assert(front.drop_first() =~= s.take(k as int).reverse());
            assert(front[0] == s[k as int]);
            lemma_pow256_monotonic((k + 1) as nat, n as nat);
        }
        r = r * 256 + x % 256;
        x = x / 256;
        k = k + 1;
    }
    proof {
        assert(s.take(n as int) =~= s);
    }
    r
}

} // verus!
