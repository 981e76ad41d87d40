use vstd::prelude::*;

verus! {

/// The unsigned number whose little-endian bytes are `s`.
pub open spec fn le_value(s: Seq<u8>) -> nat
    decreases s.len(),
{
    if s.len() == 0 {
        0
    } else {
        s[0] as nat + 256 * le_value(s.drop_first())
    }
}

/// `256` to the power `n`.
pub open spec fn pow256(n: nat) -> nat
    decreases n,
{
    if n == 0 {
        1
    } else {
        256 * pow256((n - 1) as nat)
    }
}

/// The little-endian field of `n` bytes at `offset` in `s`.
pub open spec fn field(s: Seq<u8>, offset: int, n: int) -> nat {
    le_value(s.subrange(offset, offset + n))
}

proof fn lemma_pow256_bounds(n: nat)
    requires
        n <= 8,
    ensures
        1 <= pow256(n) <= 0x1_0000_0000_0000_0000,
    decreases n,
{
    reveal_with_fuel(pow256, 9);
}

proof fn lemma_pow256_step(n: nat)
    ensures
        pow256(n + 1) == 256 * pow256(n),
{
}

/// Reads the little-endian field of `n` bytes (at most eight) at `offset`.
pub fn read_le(bytes: &[u8], offset: usize, n: usize) -> (r: u64)
    requires
        n <= 8,
        offset + n <= bytes@.len(),
    ensures
        r as nat == field(bytes@, offset as int, n as int),
        (r as nat) < pow256(n as nat),
{
    let len = bytes.len();
    let mut acc: u64 = 0;
    let mut i: usize = n;
    proof {
        assert(bytes@.subrange(offset + n, offset + n).len() == 0);
    }
    while i > 0
        invariant
            n <= 8,
            i <= n,
            offset + n <= bytes@.len(),
            len == bytes@.len(),
            acc as nat == le_value(bytes@.subrange(offset + i, offset + n)),
            (acc as nat) < pow256((n - i) as nat),
        decreases i,
    {
        i = i - 1;
        let b = bytes[offset + i];
        proof {
            let k = (n - i - 1) as nat;
            lemma_pow256_bounds(k);
            lemma_pow256_step(k);
            lemma_pow256_bounds(k + 1);
            assert(acc * 256 + b < pow256(k + 1)) by (nonlinear_arith)
                requires
                    acc < pow256(k),
                    b < 256,
                    pow256(k + 1) == 256 * pow256(k),
            ;
            let s = bytes@.subrange(offset + i, offset + n);
            assert(s.drop_first() =~= bytes@.subrange(offset + i + 1, offset + n));
            assert(s[0] == b);
        }
        acc = acc * 256 + b as u64;
    }
    acc
}

} // verus!
