//! Byte-buffer helpers shared by the bitstream and container code.

use vstd::prelude::*;

verus! {

/// Appends `src[from..to]` to `dst`.
pub fn append_range(dst: &mut Vec<u8>, src: &[u8], from: usize, to: usize)
    requires
        from <= to <= src@.len(),
    ensures
        final(dst)@ == old(dst)@ + src@.subrange(from as int, to as int),
{
    let mut i = from;
    while i < to
        invariant
            from <= i <= to <= src@.len(),
            dst@ == old(dst)@ + src@.subrange(from as int, i as int),
        decreases to - i,
    {
        dst.push(src[i]);
        assert(src@.subrange(from as int, i + 1) =~= src@.subrange(from as int, i as int).push(src@[i as int]));
        i = i + 1;
    }
}

/// Copies `src[from..to]` into a new vector.
pub fn copy_range(src: &[u8], from: usize, to: usize) -> (v: Vec<u8>)
    requires
        from <= to <= src@.len(),
    ensures
        v@ == src@.subrange(from as int, to as int),
{
    let mut v: Vec<u8> = Vec::new();
    append_range(&mut v, src, from, to);
    assert(Seq::<u8>::empty() + src@.subrange(from as int, to as int) =~= src@.subrange(from as int, to as int));
    v
}

/// Appends all of `src` to `dst`.
pub fn append_all(dst: &mut Vec<u8>, src: &[u8])
    ensures
        final(dst)@ == old(dst)@ + src@,
{
    append_range(dst, src, 0, src.len());
    assert(src@.subrange(0, src@.len() as int) =~= src@);
}

} // verus!
