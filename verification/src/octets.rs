//! Byte-level helpers shared by the parser and the multiplexer.

use vstd::prelude::*;

verus! {

/// `n` bytes of `0xFF`, the value that pads a transport packet.
pub open spec fn filler(n: int) -> Seq<u8> {
    Seq::new(
        if n >= 0 {
            n as nat
        } else {
            0
        },
        |i: int| 0xFFu8,
    )
}

/// The four bytes of `x`, most significant first.
pub open spec fn be_bytes32(x: u32) -> Seq<u8> {
    seq![
        (x / 0x100_0000) as u8,
        ((x / 0x1_0000) % 256) as u8,
        ((x / 0x100) % 256) as u8,
        (x % 256) as u8,
    ]
}

/// Appends `src` to `out`.
pub fn append(out: &mut Vec<u8>, src: &[u8])
    ensures
        final(out)@ == old(out)@ + src@,
{
    out.extend_from_slice(src);
    assert(out@ =~= old(out)@ + src@);
}

/// Appends `n` padding bytes to `out`.
pub fn append_filler(out: &mut Vec<u8>, n: usize)
    ensures
        final(out)@ == old(out)@ + filler(n as int),
{
    let mut i: usize = 0;
    while i < n
        invariant
            i <= n,
            out@ == old(out)@ + filler(i as int),
        decreases n - i,
    {
        out.push(0xFF);
        i += 1;
        assert(out@ =~= old(out)@ + filler(i as int));
    }
}

/// The bytes of `s` from `from` to `to`, as a new vector.
pub fn copy_range(s: &[u8], from: usize, to: usize) -> (r: Vec<u8>)
    requires
        from <= to <= s@.len(),
    ensures
        r@ == s@.subrange(from as int, to as int),
{
    let mut r: Vec<u8> = Vec::new();
    append(&mut r, vstd::slice::slice_subrange(s, from, to));
    r
}

} // verus!
