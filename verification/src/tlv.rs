//! The tag-length-value codec: one typed field serialized as
//! `[tag][length][bytes]` into a caller-supplied buffer, capacity enforced.

use vstd::prelude::*;

verus! {

use vstd::assert_seqs_equal;
use vstd::bytes::{
    lemma_auto_spec_u64_to_from_le_bytes, spec_u64_from_le_bytes, spec_u64_to_le_bytes,
    u64_from_le_bytes,
};
use vstd::slice::{slice_subrange, slice_to_vec};
use crate::wire::{write_bytes, write_u64_le, LEN_BYTES, TAG_BYTES};
use crate::LogError;

/// The semantic kind of a record field, serialized as a small unsigned
/// integer of [`TAG_BYTES`] width.
#[derive(Clone, Copy, PartialEq, Eq, Structural, Debug)]
pub enum FieldTag {
    /// The log target (typically the module path of the call site).
    Target,
    /// The severity level.
    Level,
    /// The module that produced the record.
    Module,
    /// The source file that produced the record.
    File,
    /// The source line that produced the record.
    Line,
    /// The free-text message payload itself.
    Log,
}

impl FieldTag {
    /// The discriminant this tag takes on the wire.
    pub open spec fn spec_value(self) -> u64 {
        match self {
            FieldTag::Target => 1,
            FieldTag::Level => 2,
            FieldTag::Module => 3,
            FieldTag::File => 4,
            FieldTag::Line => 5,
            FieldTag::Log => 6,
        }
    }

    /// Returns the discriminant this tag takes on the wire.
    pub fn value(self) -> (v: u64)
        ensures
            v == self.spec_value(),
    {
        match self {
            FieldTag::Target => 1,
            FieldTag::Level => 2,
            FieldTag::Module => 3,
            FieldTag::File => 4,
            FieldTag::Line => 5,
            FieldTag::Log => 6,
        }
    }

    /// The tag whose wire discriminant is `v`, if any.
    pub open spec fn spec_of_value(v: u64) -> Option<FieldTag> {
        if v == 1 {
            Some(FieldTag::Target)
        } else if v == 2 {
            Some(FieldTag::Level)
        } else if v == 3 {
            Some(FieldTag::Module)
        } else if v == 4 {
            Some(FieldTag::File)
        } else if v == 5 {
            Some(FieldTag::Line)
        } else if v == 6 {
            Some(FieldTag::Log)
        } else {
            None
        }
    }

    /// Returns the tag whose wire discriminant is `v`, if any.
    pub fn of_value(v: u64) -> (r: Option<FieldTag>)
        ensures
            r == Self::spec_of_value(v),
    {
        if v == 1 {
            Some(FieldTag::Target)
        } else if v == 2 {
            Some(FieldTag::Level)
        } else if v == 3 {
            Some(FieldTag::Module)
        } else if v == 4 {
            Some(FieldTag::File)
        } else if v == 5 {
            Some(FieldTag::Line)
        } else if v == 6 {
            Some(FieldTag::Log)
        } else {
            None
        }
    }
}

/// The serialized size of a tag-length-value entry holding `value_len`
/// bytes of payload.
pub open spec fn tlv_size(value_len: nat) -> nat {
    (TAG_BYTES + LEN_BYTES) as nat + value_len
}

/// The exact bytes of a tag-length-value entry: the tag's discriminant,
/// then the payload length, then the payload verbatim.
pub open spec fn tlv_bytes(tag: FieldTag, value: Seq<u8>) -> Seq<u8> {
    spec_u64_to_le_bytes(tag.spec_value()) + spec_u64_to_le_bytes(value.len() as u64) + value
}

/// What a matching reader makes of the front of `bytes`: the field and its
/// payload, if `bytes` starts with a well-formed tag-length-value entry.
pub open spec fn spec_decode(bytes: Seq<u8>) -> Option<(FieldTag, Seq<u8>)> {
    if bytes.len() < TAG_BYTES + LEN_BYTES {
        None
    } else {
        let tag_value = spec_u64_from_le_bytes(bytes.subrange(0, TAG_BYTES as int));
        let len = spec_u64_from_le_bytes(
            bytes.subrange(TAG_BYTES as int, (TAG_BYTES + LEN_BYTES) as int),
        );
        match FieldTag::spec_of_value(tag_value) {
            None => None,
            Some(tag) => if TAG_BYTES + LEN_BYTES + len <= bytes.len() {
                Some(
                    (
                        tag,
                        bytes.subrange(
                            (TAG_BYTES + LEN_BYTES) as int,
                            TAG_BYTES + LEN_BYTES + len,
                        ),
                    ),
                )
            } else {
                None
            },
        }
    }
}

/// Encodes one field as `[tag][length][bytes]` into `buf` at `offset`.
///
/// The write is all-or-nothing: when the entry does not fit, the buffer is
/// left byte-for-byte unmodified and `CapacityExceeded` comes back. On
/// success the entry's exact bytes stand at `offset` and everything outside
/// them keeps its old value; the returned count is the entry's full size.
pub fn encode(tag: FieldTag, value: &[u8], buf: &mut Vec<u8>, offset: usize) -> (r: Result<
    usize,
    LogError,
>)
    ensures
        final(buf)@.len() == old(buf)@.len(),
        r is Ok <==> offset + tlv_size(value@.len()) <= old(buf)@.len(),
        r matches Ok(n) ==> n == tlv_size(value@.len()) && final(buf)@ == old(buf)@.subrange(
            0,
            offset as int,
        ) + tlv_bytes(tag, value@) + old(buf)@.subrange(
            offset + tlv_size(value@.len()),
            old(buf)@.len() as int,
        ),
        r matches Err(e) ==> e == LogError::CapacityExceeded && final(buf)@ == old(buf)@,
{
    if offset > buf.len() {
        return Err(LogError::CapacityExceeded);
    }
    let available = buf.len() - offset;
    if available < TAG_BYTES + LEN_BYTES || available - (TAG_BYTES + LEN_BYTES) < value.len() {
        return Err(LogError::CapacityExceeded);
    }
    let size = TAG_BYTES + LEN_BYTES + value.len();
    write_u64_le(buf, offset, tag.value());
    write_u64_le(buf, offset + TAG_BYTES, value.len() as u64);
    // The size check above already guarantees the payload fits; the copy
    // still clamps to the remaining space as a second line of defense.
    let payload_offset = offset + TAG_BYTES + LEN_BYTES;
    let rest = buf.len() - payload_offset;
    let n = if value.len() < rest {
        value.len()
    } else {
        rest
    };
    write_bytes(buf, payload_offset, slice_subrange(value, 0, n));
    proof {
        assert(value@.subrange(0, n as int) == value@);
        assert_seqs_equal!(
            buf@ == old(buf)@.subrange(0, offset as int) + tlv_bytes(tag, value@)
                + old(buf)@.subrange(offset + tlv_size(value@.len()), old(buf)@.len() as int)
        );
    }
    Ok(size)
}

/// Decodes one tag-length-value entry from `buf` at `offset`, returning the
/// field, its payload, and the entry's total size — exactly what
/// [`spec_decode`] makes of the bytes from `offset` on.
pub fn decode(buf: &[u8], offset: usize) -> (r: Option<(FieldTag, Vec<u8>, usize)>)
    ensures
        match r {
            Some((tag, value, consumed)) => {
                &&& offset <= buf@.len()
                &&& spec_decode(buf@.subrange(offset as int, buf@.len() as int)) == Some(
                    (tag, value@),
                )
                &&& consumed == tlv_size(value@.len())
            },
            None => offset > buf@.len() || spec_decode(
                buf@.subrange(offset as int, buf@.len() as int),
            ) is None,
        },
{
    if offset > buf.len() {
        return None;
    }
    let ghost region = buf@.subrange(offset as int, buf@.len() as int);
    let available = buf.len() - offset;
    if available < TAG_BYTES + LEN_BYTES {
        return None;
    }
    let tag_value = u64_from_le_bytes(slice_subrange(buf, offset, offset + TAG_BYTES));
    let len_value = u64_from_le_bytes(
        slice_subrange(buf, offset + TAG_BYTES, offset + TAG_BYTES + LEN_BYTES),
    );
    proof {
        assert(buf@.subrange(offset as int, offset + TAG_BYTES as int) == region.subrange(
            0,
            TAG_BYTES as int,
        ));
        assert(buf@.subrange(offset + TAG_BYTES as int, offset + (TAG_BYTES + LEN_BYTES) as int)
            == region.subrange(TAG_BYTES as int, (TAG_BYTES + LEN_BYTES) as int));
    }
    let tag = match FieldTag::of_value(tag_value) {
        Some(tag) => tag,
        None => {
            return None;
        },
    };
    if len_value > (available - (TAG_BYTES + LEN_BYTES)) as u64 {
        return None;
    }
    let len = len_value as usize;
    let payload_start = offset + TAG_BYTES + LEN_BYTES;
    let value = slice_to_vec(slice_subrange(buf, payload_start, payload_start + len));
    proof {
        assert(buf@.subrange(payload_start as int, payload_start + len as int) == region.subrange(
            (TAG_BYTES + LEN_BYTES) as int,
            TAG_BYTES + LEN_BYTES + len_value,
        ));
    }
    Some((tag, value, TAG_BYTES + LEN_BYTES + len))
}

/// Round trip: a matching reader recovers exactly the field and payload
/// that went in, whatever bytes follow the entry; and the bytes after the
/// entry are exactly that residue.
pub proof fn lemma_tlv_round_trip(tag: FieldTag, value: Seq<u8>, rest: Seq<u8>)
    requires
        value.len() <= u64::MAX,
    ensures
        spec_decode(tlv_bytes(tag, value) + rest) == Some((tag, value)),
        (tlv_bytes(tag, value) + rest).subrange(
            tlv_size(value.len()) as int,
            (tlv_bytes(tag, value) + rest).len() as int,
        ) == rest,
{
    lemma_auto_spec_u64_to_from_le_bytes();
    let bytes = tlv_bytes(tag, value) + rest;
    assert_seqs_equal!(
        bytes.subrange(0, TAG_BYTES as int) == spec_u64_to_le_bytes(tag.spec_value())
    );
    assert_seqs_equal!(
        bytes.subrange(TAG_BYTES as int, (TAG_BYTES + LEN_BYTES) as int)
            == spec_u64_to_le_bytes(value.len() as u64)
    );
    assert_seqs_equal!(
        bytes.subrange((TAG_BYTES + LEN_BYTES) as int,
            TAG_BYTES + LEN_BYTES + value.len()) == value
    );
    assert_seqs_equal!(
        bytes.subrange(tlv_size(value.len()) as int, bytes.len() as int) == rest
    );
}

} // verus!
