use vstd::prelude::*;

verus! {

/// 256 to the power `n`.
pub open spec fn pow256(n: nat) -> nat
    decreases n,
{
    if n == 0 {
        1
    } else {
        256 * pow256((n - 1) as nat)
    }
}

/// The unsigned integer that the bytes `s` encode, least significant first.
pub open spec fn le_value(s: Seq<u8>) -> nat
    decreases s.len(),
{
    if s.len() == 0 {
        0
    } else {
        le_value(s.drop_last()) + (s.last() as nat) * pow256((s.len() - 1) as nat)
    }
}

proof fn lemma_pow256_eight()
    ensures
        pow256(8) == 0x1_0000_0000_0000_0000,
{
    reveal_with_fuel(pow256, 9);
}

proof fn lemma_pow256_mono(a: nat, b: nat)
    requires
        a <= b,
    ensures
        pow256(a) <= pow256(b),
        pow256(a) >= 1,
    decreases b,
{
    if b > 0 {
        if a < b {
            lemma_pow256_mono(a, (b - 1) as nat);
        } else {
            lemma_pow256_mono((a - 1) as nat, (b - 1) as nat);
        }
    }
}

proof fn lemma_pow256_u64(n: nat)
    requires
        n <= 8,
    ensures
        1 <= pow256(n) <= 0x1_0000_0000_0000_0000,
{
    lemma_pow256_eight();
    lemma_pow256_mono(n, 8);
}

/// A value of `s.len()` bytes stays below `256^len`.
proof fn lemma_le_value_bound(s: Seq<u8>)
    ensures
        le_value(s) < pow256(s.len()),
    decreases s.len(),
{
    if s.len() > 0 {
        lemma_le_value_bound(s.drop_last());
        let p = pow256((s.len() - 1) as nat);
        let v = le_value(s.drop_last());
        let b = s.last() as nat;
        assert(v + b * p < 256 * p) by (nonlinear_arith)
            requires
                v < p,
                b <= 255,
        ;
    }
}

/// The eight bytes of `x`, least significant first.
pub fn u64_to_le(x: u64) -> (r: Vec<u8>)
    ensures
        r@.len() == 8,
        le_value(r@) == x,
{
    let mut out: Vec<u8> = Vec::new();
    let mut v: u64 = x;
    let mut i: usize = 0;
    assert(le_value(out@) == 0 && pow256(0) == 1);
    while i < 8
        invariant
            0 <= i <= 8,
            out@.len() == i,
            x as nat == le_value(out@) + pow256(i as nat) * (v as nat),
        decreases 8 - i,
    {
        let b: u8 = (v % 256) as u8;
        let ghost before = out@;
        out.push(b);
        assert(out@.drop_last() =~= before);
        let w: u64 = v / 256;
        let ghost p = pow256(i as nat);
        assert(le_value(out@) == le_value(before) + (b as nat) * p);
        assert(pow256((i + 1) as nat) == 256 * p);
        assert(p * (v as nat) == (b as nat) * p + 256 * p * (w as nat)) by (nonlinear_arith)
            requires
                v as nat == 256 * (w as nat) + (b as nat),
        ;
        v = w;
        i = i + 1;
    }
    proof {
        lemma_le_value_bound(out@);
        lemma_pow256_eight();
        if v > 0 {
            assert(pow256(8) * (v as nat) >= pow256(8)) by (nonlinear_arith)
                requires
                    v > 0,
            ;
        }
    }
    out
}

/// The integer that the first eight bytes of `s` encode, least significant
/// first.
pub fn le_to_u64(s: &[u8]) -> (r: u64)
    requires
        s@.len() >= 8,
    ensures
        r == le_value(s@.subrange(0, 8)),
{
    let mut acc: u128 = 0;
    let mut p: u128 = 1;
    let mut i: usize = 0;
    assert(le_value(s@.subrange(0, 0)) == 0 && pow256(0) == 1);
    while i < 8
        invariant
            0 <= i <= 8,
            s@.len() >= 8,
            acc == le_value(s@.subrange(0, i as int)),
            p == pow256(i as nat),
            acc < p,
            p <= 0x1_0000_0000_0000_0000,
        decreases 8 - i,
    {
        let ghost pre = s@.subrange(0, i as int);
        let ghost next = s@.subrange(0, i + 1);
        assert(next.drop_last() =~= pre);
        let b: u128 = s[i] as u128;
        proof {
            lemma_le_value_bound(next);
            lemma_pow256_u64((i + 1) as nat);
        }
        acc = acc + b * p;
        p = p * 256;
        i = i + 1;
    }
    acc as u64
}

} // verus!
