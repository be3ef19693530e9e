//! Bounds-checked little-endian reads from byte slices.

use vstd::prelude::*;

verus! {

/// The little-endian 16-bit integer whose first byte is `b[i]`.
pub open spec fn le_u16(b: Seq<u8>, i: int) -> u16 {
    (b[i] as int + 0x100 * b[i + 1]) as u16
}

/// The little-endian 32-bit integer whose first byte is `b[i]`.
pub open spec fn le_u32(b: Seq<u8>, i: int) -> u32 {
    (b[i] as int + 0x100 * b[i + 1] + 0x1_0000 * b[i + 2] + 0x100_0000 * b[i + 3]) as u32
}

/// The little-endian 64-bit integer whose first byte is `b[i]`.
pub open spec fn le_u64(b: Seq<u8>, i: int) -> u64 {
    (le_u32(b, i) as int + 0x1_0000_0000 * le_u32(b, i + 4)) as u64
}

/// The `n` little-endian 32-bit words that start at `b[i]`.
pub open spec fn le_words(b: Seq<u8>, i: int, n: nat) -> Seq<u32> {
    Seq::new(n, |k: int| le_u32(b, i + 4 * k))
}

/// Reads the little-endian 16-bit integer at `b[i]`.
pub fn read_u16(b: &[u8], i: usize) -> (r: u16)
    requires
        i + 2 <= b@.len(),
    ensures
        r == le_u16(b@, i as int),
{
    b[i] as u16 + 0x100 * (b[i + 1] as u16)
}

/// Reads the little-endian 32-bit integer at `b[i]`.
pub fn read_u32(b: &[u8], i: usize) -> (r: u32)
    requires
        i + 4 <= b@.len(),
    ensures
        r == le_u32(b@, i as int),
{
    b[i] as u32 + 0x100 * (b[i + 1] as u32) + 0x1_0000 * (b[i + 2] as u32) + 0x100_0000 * (
    b[i + 3] as u32)
}

/// Reads the little-endian 64-bit integer at `b[i]`.
pub fn read_u64(b: &[u8], i: usize) -> (r: u64)
    requires
        i + 8 <= b@.len(),
    ensures
        r == le_u64(b@, i as int),
{
    let _len = b.len();
    let lo = read_u32(b, i);
    let hi = read_u32(b, i + 4);
    lo as u64 + 0x1_0000_0000 * (hi as u64)
}

/// Reads the `n` little-endian 32-bit words that start at `b[i]`.
pub fn read_words(b: &[u8], i: usize, n: usize) -> (r: Vec<u32>)
    requires
        i + 4 * n <= b@.len(),
    ensures
        r@ == le_words(b@, i as int, n as nat),
{
    let _len = b.len();
    let mut r: Vec<u32> = Vec::new();
    let mut k: usize = 0;
    while k < n
        invariant
            k <= n,
            i + 4 * n <= b@.len(),
            b@.len() <= usize::MAX,
            r@ == le_words(b@, i as int, k as nat),
        decreases n - k,
    {
        let w = read_u32(b, i + 4 * k);
        r.push(w);
        k = k + 1;
        assert(r@ =~= le_words(b@, i as int, k as nat));
    }
    r
}

} // verus!
