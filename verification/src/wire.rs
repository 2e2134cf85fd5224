//! Fixed wire widths and the primitive byte-copying operations every other
//! module builds on.

use vstd::prelude::*;

verus! {

use vstd::assert_seqs_equal;
use vstd::bytes::{spec_u64_to_le_bytes, u64_to_le_bytes};
use vstd::pervasive::VecAdditionalExecFns;

/// Width in bytes of a field tag on the wire.
pub const TAG_BYTES: usize = 8;

/// Width in bytes of a length prefix on the wire. It matches the reader's
/// pointer width — a wire-compatibility invariant shared with the consumer.
pub const LEN_BYTES: usize = 8;

/// Width in bytes of a serialized source-line number. Fixed at 32 bits
/// regardless of pointer width, unlike the length prefix.
pub const LINE_BYTES: usize = 4;

/// Bytes set aside at the front of a message section for the message's own
/// tag and length, backfilled once the message is complete.
pub const RESERVED_BYTES: usize = TAG_BYTES + LEN_BYTES;

/// Copies `src` verbatim into `buf` starting at `offset`; every byte outside
/// `buf[offset .. offset + src.len()]` keeps its old value.
pub fn write_bytes(buf: &mut Vec<u8>, offset: usize, src: &[u8])
    requires
        offset + src@.len() <= old(buf)@.len(),
    ensures
        final(buf)@.len() == old(buf)@.len(),
        final(buf)@ == old(buf)@.subrange(0, offset as int) + src@ + old(buf)@.subrange(
            offset + src@.len(),
            old(buf)@.len() as int,
        ),
{
    let n = src.len();
    let total = buf.len();
    let mut i: usize = 0;
    while i < n
        invariant
            n == src@.len(),
            i <= n,
            offset + n <= total,
            total == buf@.len(),
            buf@.len() == old(buf)@.len(),
            forall|j: int| 0 <= j < offset ==> buf@[j] == old(buf)@[j],
            forall|j: int| 0 <= j < i ==> buf@[offset + j] == src@[j],
            forall|j: int| offset + i <= j < buf@.len() ==> buf@[j] == old(buf)@[j],
        decreases n - i,
    {
        buf.set(offset + i, src[i]);
        i += 1;
    }
    proof {
        assert_seqs_equal!(
            buf@ == old(buf)@.subrange(0, offset as int) + src@
                + old(buf)@.subrange(offset + src@.len(), old(buf)@.len() as int)
        );
    }
}

/// Writes `v` at `offset` as eight little-endian bytes.
pub fn write_u64_le(buf: &mut Vec<u8>, offset: usize, v: u64)
    requires
        offset + 8 <= old(buf)@.len(),
    ensures
        final(buf)@.len() == old(buf)@.len(),
        final(buf)@ == old(buf)@.subrange(0, offset as int) + spec_u64_to_le_bytes(v) + old(
            buf,
        )@.subrange(offset + 8, old(buf)@.len() as int),
{
    let bytes = u64_to_le_bytes(v);
    write_bytes(buf, offset, bytes.as_slice());
}

} // verus!
