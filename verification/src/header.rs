//! The record header assembler: the five metadata fields, written as
//! tag-length-value entries in one canonical order.

use vstd::prelude::*;

verus! {

use vstd::assert_seqs_equal;
use vstd::bytes::{
    lemma_auto_spec_u32_to_from_le_bytes, lemma_auto_spec_u64_to_from_le_bytes,
    spec_u32_to_le_bytes, spec_u64_to_le_bytes, u32_to_le_bytes, u64_to_le_bytes,
};
use vstd::string::StringSliceAdditionalSpecFns;
use crate::tlv::{encode, tlv_bytes, tlv_size, FieldTag};
use crate::wire::{LEN_BYTES, LINE_BYTES};
use crate::LogError;

/// The severity of a record, ranked: `Error` is the most severe and takes
/// the smallest ordinal. The ranking is a wire-format invariant shared with
/// the reader's decoder.
#[derive(Clone, Copy, PartialEq, Eq, Structural, Debug)]
pub enum Level {
    /// Designates very serious errors.
    Error,
    /// Designates hazardous situations.
    Warn,
    /// Designates useful information.
    Info,
    /// Designates lower priority information.
    Debug,
    /// Designates very low priority, often extremely verbose, information.
    Trace,
}

impl Level {
    /// The ordinal this level takes on the wire.
    pub open spec fn spec_ordinal(self) -> u64 {
        match self {
            Level::Error => 1,
            Level::Warn => 2,
            Level::Info => 3,
            Level::Debug => 4,
            Level::Trace => 5,
        }
    }

    /// Returns the ordinal this level takes on the wire.
    pub fn ordinal(self) -> (v: u64)
        ensures
            v == self.spec_ordinal(),
    {
        match self {
            Level::Error => 1,
            Level::Warn => 2,
            Level::Info => 3,
            Level::Debug => 4,
            Level::Trace => 5,
        }
    }

    /// The level whose wire ordinal is `v`, if any.
    pub open spec fn spec_of_ordinal(v: u64) -> Option<Level> {
        if v == 1 {
            Some(Level::Error)
        } else if v == 2 {
            Some(Level::Warn)
        } else if v == 3 {
            Some(Level::Info)
        } else if v == 4 {
            Some(Level::Debug)
        } else if v == 5 {
            Some(Level::Trace)
        } else {
            None
        }
    }

    /// Returns the level whose wire ordinal is `v`, if any.
    pub fn of_ordinal(v: u64) -> (r: Option<Level>)
        ensures
            r == Self::spec_of_ordinal(v),
    {
        if v == 1 {
            Some(Level::Error)
        } else if v == 2 {
            Some(Level::Warn)
        } else if v == 3 {
            Some(Level::Info)
        } else if v == 4 {
            Some(Level::Debug)
        } else if v == 5 {
            Some(Level::Trace)
        } else {
            None
        }
    }
}

/// A level's payload on the wire: its ordinal as a pointer-width value.
pub open spec fn level_value_bytes(level: Level) -> Seq<u8> {
    spec_u64_to_le_bytes(level.spec_ordinal())
}

/// The exact bytes of a record header: the Target, Level, Module, File and
/// Line fields, in that fixed order — the order is a wire-format invariant,
/// not incidental.
pub open spec fn header_bytes(
    target: Seq<u8>,
    level: Level,
    module: Seq<u8>,
    file: Seq<u8>,
    line: u32,
) -> Seq<u8> {
    tlv_bytes(FieldTag::Target, target) + tlv_bytes(FieldTag::Level, level_value_bytes(level))
        + tlv_bytes(FieldTag::Module, module) + tlv_bytes(FieldTag::File, file) + tlv_bytes(
        FieldTag::Line,
        spec_u32_to_le_bytes(line),
    )
}

/// The serialized size of a record header: the sum of the five individual
/// tag-length-value sizes.
pub open spec fn header_size(target_len: nat, module_len: nat, file_len: nat) -> nat {
    tlv_size(target_len) + tlv_size(LEN_BYTES as nat) + tlv_size(module_len) + tlv_size(file_len)
        + tlv_size(LINE_BYTES as nat)
}

/// A header's byte count equals the sum of its five field sizes.
pub proof fn lemma_header_len(target: Seq<u8>, level: Level, module: Seq<u8>, file: Seq<u8>, line: u32)
    ensures
        header_bytes(target, level, module, file, line).len() == header_size(
            target.len(),
            module.len(),
            file.len(),
        ),
{
    lemma_auto_spec_u64_to_from_le_bytes();
    lemma_auto_spec_u32_to_from_le_bytes();
}

/// Writes the five metadata fields of a record into the front of `buf`, in
/// the fixed order Target, Level, Module, File, Line.
///
/// On success the header's exact bytes stand at the front of `buf`, the
/// rest keeps its old value, and the returned count is the cumulative size
/// of all five fields. The write fails with `CapacityExceeded` exactly when
/// that cumulative size exceeds the buffer; fields already written before
/// the failing one remain, and the caller must treat the buffer as unsent.
pub fn write_record_header(
    buf: &mut Vec<u8>,
    target: &str,
    level: Level,
    module: &str,
    file: &str,
    line: u32,
) -> (r: Result<usize, LogError>)
    ensures
        final(buf)@.len() == old(buf)@.len(),
        r is Ok <==> header_size(
            target.spec_bytes().len(),
            module.spec_bytes().len(),
            file.spec_bytes().len(),
        ) <= old(buf)@.len(),
        r matches Ok(n) ==> {
            &&& n == header_size(
                target.spec_bytes().len(),
                module.spec_bytes().len(),
                file.spec_bytes().len(),
            )
            &&& final(buf)@ == header_bytes(
                target.spec_bytes(),
                level,
                module.spec_bytes(),
                file.spec_bytes(),
                line,
            ) + old(buf)@.subrange(n as int, old(buf)@.len() as int)
        },
        r matches Err(e) ==> e == LogError::CapacityExceeded,
{
    let ghost initial = buf@;
    let total = buf.len();
    let size1 = match encode(FieldTag::Target, target.as_bytes(), buf, 0) {
        Ok(n) => n,
        Err(e) => {
            return Err(e);
        },
    };
    proof {
        assert_seqs_equal!(
            buf@ == tlv_bytes(FieldTag::Target, target.spec_bytes())
                + initial.subrange(size1 as int, initial.len() as int)
        );
    }
    let level_value = u64_to_le_bytes(level.ordinal());
    let size2 = match encode(FieldTag::Level, level_value.as_slice(), buf, size1) {
        Ok(n) => size1 + n,
        Err(e) => {
            return Err(e);
        },
    };
    proof {
        assert_seqs_equal!(
            buf@ == tlv_bytes(FieldTag::Target, target.spec_bytes())
                + tlv_bytes(FieldTag::Level, level_value_bytes(level))
                + initial.subrange(size2 as int, initial.len() as int)
        );
    }
    let size3 = match encode(FieldTag::Module, module.as_bytes(), buf, size2) {
        Ok(n) => size2 + n,
        Err(e) => {
            return Err(e);
        },
    };
    proof {
        assert_seqs_equal!(
            buf@ == tlv_bytes(FieldTag::Target, target.spec_bytes())
                + tlv_bytes(FieldTag::Level, level_value_bytes(level))
                + tlv_bytes(FieldTag::Module, module.spec_bytes())
                + initial.subrange(size3 as int, initial.len() as int)
        );
    }
    let size4 = match encode(FieldTag::File, file.as_bytes(), buf, size3) {
        Ok(n) => size3 + n,
        Err(e) => {
            return Err(e);
        },
    };
    proof {
        assert_seqs_equal!(
            buf@ == tlv_bytes(FieldTag::Target, target.spec_bytes())
                + tlv_bytes(FieldTag::Level, level_value_bytes(level))
                + tlv_bytes(FieldTag::Module, module.spec_bytes())
                + tlv_bytes(FieldTag::File, file.spec_bytes())
                + initial.subrange(size4 as int, initial.len() as int)
        );
    }
    let line_value = u32_to_le_bytes(line);
    let size5 = match encode(FieldTag::Line, line_value.as_slice(), buf, size4) {
        Ok(n) => size4 + n,
        Err(e) => {
            return Err(e);
        },
    };
    proof {
        assert_seqs_equal!(
            buf@ == header_bytes(target.spec_bytes(), level, module.spec_bytes(),
                file.spec_bytes(), line)
                + initial.subrange(size5 as int, initial.len() as int)
        );
    }
    Ok(size5)
}

} // verus!
