//! Byte-range moves between and within buffers.

use vstd::prelude::*;

verus! {

/// `dest` with `bytes` written over it from index `at` on.
pub open spec fn placed(dest: Seq<u8>, at: int, bytes: Seq<u8>) -> Seq<u8> {
    dest.subrange(0, at) + bytes + dest.subrange(at + bytes.len(), dest.len() as int)
}

/// Copies `count` bytes of `src`, starting at `from`, over `dest` from `at` on.
pub fn copy_into(dest: &mut [u8], at: usize, src: &[u8], from: usize, count: usize)
    requires
        at + count <= old(dest)@.len(),
        from + count <= src@.len(),
    ensures
        final(dest)@ == placed(old(dest)@, at as int, src@.subrange(from as int, from + count)),
{
    let dest_len: usize = dest.len();
    let src_len: usize = src.len();
    let mut i: usize = 0;
    while i < count
        invariant
            i <= count,
            dest_len == dest@.len(),
            src_len == src@.len(),
            at + count <= dest@.len(),
            from + count <= src@.len(),
            dest@.len() == old(dest)@.len(),
            forall|j: int| at <= j < at + i ==> dest@[j] == src@[j - at + from],
            forall|j: int|
                0 <= j < dest@.len() && !(at <= j < at + i) ==> dest@[j] == old(dest)@[j],
        decreases count - i,
    {
        dest[at + i] = src[from + i];
        i += 1;
    }
    assert(dest@ =~= placed(old(dest)@, at as int, src@.subrange(from as int, from + count)));
}

/// Moves the `count` bytes that start at `from` down to the start of `buf`.
/// The two ranges may overlap.
pub fn move_to_front(buf: &mut [u8], from: usize, count: usize)
    requires
        from + count <= old(buf)@.len(),
    ensures
        final(buf)@ == placed(old(buf)@, 0, old(buf)@.subrange(from as int, from + count)),
{
    let buf_len: usize = buf.len();
    let mut i: usize = 0;
    while i < count
        invariant
            i <= count,
            buf_len == buf@.len(),
            from + count <= buf@.len(),
            buf@.len() == old(buf)@.len(),
            forall|j: int| 0 <= j < i ==> buf@[j] == old(buf)@[j + from],
            forall|j: int| i <= j < buf@.len() ==> buf@[j] == old(buf)@[j],
        decreases count - i,
    {
        buf[i] = buf[from + i];
        i += 1;
    }
    assert(buf@ =~= placed(old(buf)@, 0, old(buf)@.subrange(from as int, from + count)));
}

} // verus!
