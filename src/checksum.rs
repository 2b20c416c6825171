use vstd::prelude::*;

verus! {

/// 256 to the power `n`.
pub open spec fn pow256(n: nat) -> nat
    decreases n,
{
    if n == 0 {
        1
    } else {
        256 * pow256((n - 1) as nat)
    }
}

/// The unsigned integer that the bytes of `s` encode in little-endian order.
pub open spec fn le_value(s: Seq<u8>) -> nat
    decreases s.len(),
{
    if s.len() == 0 {
        0
    } else {
        s[0] as nat + 256 * le_value(s.skip(1))
    }
}

/// The XOR-fold of `s`: each full 8-byte chunk read as a little-endian word,
/// and the trailing 0 to 7 bytes read as one zero-padded little-endian word,
/// all combined by exclusive or.
pub open spec fn xor_fold(s: Seq<u8>) -> u64
    decreases s.len(),
{
    if s.len() < 8 {
        le_value(s) as u64
    } else {
        (le_value(s.take(8)) as u64) ^ xor_fold(s.skip(8))
    }
}

proof fn lemma_pow256_le(m: nat, n: nat)
    requires
        m <= n,
    ensures
        pow256(m) <= pow256(n),
    decreases n,
{
    if m < n {
        lemma_pow256_le(m, (n - 1) as nat);
    }
}

proof fn lemma_xor_assoc(a: u64, b: u64, c: u64)
    ensures
        (a ^ b) ^ c == a ^ (b ^ c),
        0u64 ^ a == a,
{
    assert((a ^ b) ^ c == a ^ (b ^ c)) by (bit_vector);
    assert(0u64 ^ a == a) by (bit_vector);
}

/// Reads `bytes[lo..hi]`, at most eight bytes, as a little-endian word.
fn le_word(bytes: &[u8], lo: usize, hi: usize) -> (w: u64)
    requires
        lo <= hi <= bytes@.len(),
        hi - lo <= 8,
    ensures
        w as nat == le_value(bytes@.subrange(lo as int, hi as int)),
{
    let mut w: u64 = 0;
    let mut k: usize = hi;
    proof {
        reveal_with_fuel(pow256, 9);
        assert(pow256(8) == 0x1_0000_0000_0000_0000);
    }
    while k > lo
        invariant
            lo <= k <= hi <= bytes@.len(),
            hi - lo <= 8,
            pow256(8) == 0x1_0000_0000_0000_0000,
            w as nat == le_value(bytes@.subrange(k as int, hi as int)),
            w < pow256((hi - k) as nat),
        decreases k - lo,
    {
        k = k - 1;
        let ghost p = pow256((hi - k - 1) as nat);
        proof {
            lemma_pow256_le((hi - k) as nat, 8);
            assert(pow256((hi - k) as nat) == 256 * p);
            assert(w * 256 + 255 < 256 * p) by (nonlinear_arith)
                requires
                    w < p,
            ;
            assert(bytes@.subrange(k as int, hi as int).skip(1) =~= bytes@.subrange(
                k as int + 1,
                hi as int,
            ));
        }
        w = w * 256 + bytes[k] as u64;
    }
    w
}

/// XOR-folds `bytes` into a 64-bit checksum (see `xor_fold`).
pub fn xor_fold_checksum(bytes: &[u8]) -> (r: u64)
    ensures
        r == xor_fold(bytes@),
{
    let mut checksum: u64 = 0;
    let mut i: usize = 0;
    proof {
        lemma_xor_assoc(xor_fold(bytes@), 0, 0);
        assert(bytes@.skip(0) =~= bytes@);
    }
    while bytes.len() - i >= 8
        invariant
            i <= bytes@.len(),
            xor_fold(bytes@) == checksum ^ xor_fold(bytes@.skip(i as int)),
        decreases bytes@.len() - i,
    {
        let w = le_word(bytes, i, i + 8);
        proof {
            let rest = bytes@.skip(i as int);
            assert(rest.take(8) =~= bytes@.subrange(i as int, i + 8));
            assert(rest.skip(8) =~= bytes@.skip(i + 8));
            lemma_xor_assoc(checksum, w, xor_fold(bytes@.skip(i + 8)));
        }
        checksum = checksum ^ w;
        i = i + 8;
    }
    let tail = le_word(bytes, i, bytes.len());
    proof {
        assert(bytes@.skip(i as int) =~= bytes@.subrange(i as int, bytes@.len() as int));
    }
    checksum ^ tail
}

} // verus!
