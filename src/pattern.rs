use vstd::prelude::*;

verus! {

/// The byte at position `i` of the synthetic payload: its index modulo 256.
pub open spec fn pattern_byte(i: int) -> u8 {
    (i % 256) as u8
}

/// The synthetic payload of `n` bytes.
pub open spec fn pattern_seq(n: nat) -> Seq<u8> {
    Seq::new(n, |i: int| pattern_byte(i))
}

/// Builds the raw payload of `size_bytes` bytes, byte `i` being `i mod 256`.
pub fn generate_pattern(size_bytes: usize) -> (data: Vec<u8>)
    ensures
        data@ == pattern_seq(size_bytes as nat),
        data@.len() == size_bytes,
        forall|i: int| 0 <= i < size_bytes ==> #[trigger] data@[i] == (i % 256) as u8,
{
    let mut data: Vec<u8> = Vec::with_capacity(size_bytes);
    let mut i: usize = 0;
    while i < size_bytes
        invariant
            i <= size_bytes,
            data@ =~= pattern_seq(i as nat),
        decreases size_bytes - i,
    {
        data.push((i % 256) as u8);
        i = i + 1;
    }
    data
}

} // verus!
