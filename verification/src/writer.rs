//! The streaming message writer: accumulates the free-text message piece by
//! piece directly after the record header, then stamps the message's own tag
//! and length into the space reserved for them at construction.

use vstd::prelude::*;

verus! {

use vstd::assert_seqs_equal;
use vstd::string::StringSliceAdditionalSpecFns;
use crate::tlv::{tlv_bytes, FieldTag};
use crate::wire::{write_bytes, write_u64_le, RESERVED_BYTES, TAG_BYTES};
use crate::LogError;

/// A write cursor over the message section of a record buffer.
///
/// The section starts at `base`, where [`RESERVED_BYTES`] are set aside for
/// the message's own tag and length; appended text accumulates after them.
/// The cursor only ever moves forward within one record, and the section is
/// sealed exactly once, by the consuming [`finish`](LogBufWriter::finish).
pub struct LogBufWriter {
    base: usize,
    pos: usize,
}

impl LogBufWriter {
    /// Where the message section starts within the record buffer.
    pub closed spec fn spec_base(self) -> int {
        self.base as int
    }

    /// The write cursor: the end of everything appended so far.
    pub closed spec fn spec_pos(self) -> int {
        self.pos as int
    }

    /// The cursor never retreats behind the reserved region.
    pub open spec fn wf(self) -> bool {
        self.spec_base() + RESERVED_BYTES <= self.spec_pos() <= usize::MAX
    }

    /// How many message bytes have been appended so far.
    pub open spec fn spec_message_len(self) -> int {
        self.spec_pos() - self.spec_base() - RESERVED_BYTES
    }

    /// How much room a buffer of `buf_len` bytes still offers the cursor.
    pub open spec fn spec_available(self, buf_len: int) -> int {
        if self.spec_pos() <= buf_len {
            buf_len - self.spec_pos()
        } else {
            0
        }
    }

    /// Opens the message section of a record at `base` — the offset where
    /// the record header ended — reserving room for the section's own tag
    /// and length, to be backfilled by `finish`.
    pub fn new(base: usize) -> (w: LogBufWriter)
        requires
            base + RESERVED_BYTES <= usize::MAX,
        ensures
            w.wf(),
            w.spec_base() == base,
            w.spec_message_len() == 0,
    {
        LogBufWriter { base, pos: base + RESERVED_BYTES }
    }

    /// Appends `text`'s bytes verbatim at the cursor and advances it.
    ///
    /// Fails with `CapacityExceeded`, copying nothing, when the text does
    /// not fit in the space left; an empty text is a no-op that always
    /// succeeds and does not move the cursor.
    pub fn append(&mut self, buf: &mut Vec<u8>, text: &str) -> (r: Result<(), LogError>)
        requires
            old(self).wf(),
        ensures
            final(self).wf(),
            final(self).spec_base() == old(self).spec_base(),
            final(buf)@.len() == old(buf)@.len(),
            r is Ok <==> text.spec_bytes().len() <= old(self).spec_available(old(buf)@.len() as int),
            r is Ok ==> final(self).spec_pos() == old(self).spec_pos() + text.spec_bytes().len(),
            r is Ok && text.spec_bytes().len() > 0 ==> final(buf)@ == old(buf)@.subrange(
                0,
                old(self).spec_pos(),
            ) + text.spec_bytes() + old(buf)@.subrange(
                old(self).spec_pos() + text.spec_bytes().len(),
                old(buf)@.len() as int,
            ),
            r matches Err(e) ==> {
                &&& e == LogError::CapacityExceeded
                &&& *final(self) == *old(self)
                &&& final(buf)@ == old(buf)@
            },
            text.spec_bytes().len() == 0 ==> r is Ok && *final(self) == *old(self) && final(buf)@
                == old(buf)@,
    {
        let bytes = text.as_bytes();
        let len = bytes.len();
        if self.pos > buf.len() {
            if len == 0 {
                return Ok(());
            }
            return Err(LogError::CapacityExceeded);
        }
        if len > buf.len() - self.pos {
            return Err(LogError::CapacityExceeded);
        }
        write_bytes(buf, self.pos, bytes);
        self.pos = self.pos + len;
        Ok(())
    }

    /// Seals the message section: stamps the Log tag at the very start of
    /// the reserved region and the accumulated message byte count as the
    /// length right after it, so that the whole section reads as one
    /// tag-length-value entry covering exactly the appended bytes.
    ///
    /// Returns the total bytes the section occupies — what the caller adds
    /// to the header size before handing the buffer to the transport. The
    /// writer is consumed: no append can follow.
    pub fn finish(self, buf: &mut Vec<u8>) -> (r: Result<usize, LogError>)
        requires
            self.wf(),
        ensures
            final(buf)@.len() == old(buf)@.len(),
            r is Ok <==> self.spec_pos() <= old(buf)@.len(),
            r matches Ok(n) ==> {
                &&& n == self.spec_pos() - self.spec_base()
                &&& final(buf)@ == old(buf)@.subrange(0, self.spec_base()) + tlv_bytes(
                    FieldTag::Log,
                    old(buf)@.subrange(self.spec_base() + RESERVED_BYTES, self.spec_pos()),
                ) + old(buf)@.subrange(self.spec_pos(), old(buf)@.len() as int)
            },
            r matches Err(e) ==> e == LogError::CapacityExceeded && final(buf)@ == old(buf)@,
    {
        if self.pos > buf.len() {
            return Err(LogError::CapacityExceeded);
        }
        let message_len = self.pos - self.base - RESERVED_BYTES;
        write_u64_le(buf, self.base, FieldTag::Log.value());
        write_u64_le(buf, self.base + TAG_BYTES, message_len as u64);
        proof {
            assert_seqs_equal!(
                buf@ == old(buf)@.subrange(0, self.spec_base())
                    + tlv_bytes(
                        FieldTag::Log,
                        old(buf)@.subrange(self.spec_base() + RESERVED_BYTES, self.spec_pos()),
                    )
                    + old(buf)@.subrange(self.spec_pos(), old(buf)@.len() as int)
            );
        }
        Ok(self.pos - self.base)
    }
}

} // verus!
