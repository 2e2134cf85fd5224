//! A whole record: the five-field header followed by the message section,
//! written in one pass, and the laws a matching reader can rely on.

use vstd::prelude::*;

verus! {

use vstd::assert_seqs_equal;
use vstd::bytes::{lemma_auto_spec_u32_to_from_le_bytes, lemma_auto_spec_u64_to_from_le_bytes,
    spec_u32_from_le_bytes, spec_u32_to_le_bytes, spec_u64_from_le_bytes};
use vstd::string::StringSliceAdditionalSpecFns;
use crate::header::{
    header_bytes, header_size, level_value_bytes, lemma_header_len, write_record_header, Level,
};
use crate::tlv::{lemma_tlv_round_trip, spec_decode, tlv_bytes, tlv_size, FieldTag};
use crate::wire::{LEN_BYTES, LINE_BYTES, RESERVED_BYTES, TAG_BYTES};
use crate::writer::LogBufWriter;
use crate::LogError;

/// The exact bytes of a complete record: the header's five fields in their
/// canonical order, then the message under its own tag and length.
pub open spec fn record_bytes(
    target: Seq<u8>,
    level: Level,
    module: Seq<u8>,
    file: Seq<u8>,
    line: u32,
    message: Seq<u8>,
) -> Seq<u8> {
    header_bytes(target, level, module, file, line) + tlv_bytes(FieldTag::Log, message)
}

/// The serialized size of a complete record.
pub open spec fn record_size(
    target_len: nat,
    module_len: nat,
    file_len: nat,
    message_len: nat,
) -> nat {
    header_size(target_len, module_len, file_len) + tlv_size(message_len)
}

/// Writes one complete record — header, then message — into the front of
/// `buf`, exactly as the caller's glue would: header first, message
/// appended after it, the message's tag and length sealed last.
///
/// On success the record's exact bytes stand at the front of `buf` and the
/// returned count is the record's full size: the bytes to hand to the
/// transport. The write fails with `CapacityExceeded` exactly when that
/// size exceeds the buffer; the buffer is then unsent and its contents are
/// not relied upon.
pub fn write_record(
    buf: &mut Vec<u8>,
    target: &str,
    level: Level,
    module: &str,
    file: &str,
    line: u32,
    message: &str,
) -> (r: Result<usize, LogError>)
    ensures
        final(buf)@.len() == old(buf)@.len(),
        r is Ok <==> record_size(
            target.spec_bytes().len(),
            module.spec_bytes().len(),
            file.spec_bytes().len(),
            message.spec_bytes().len(),
        ) <= old(buf)@.len(),
        r matches Ok(n) ==> {
            &&& n == record_size(
                target.spec_bytes().len(),
                module.spec_bytes().len(),
                file.spec_bytes().len(),
                message.spec_bytes().len(),
            )
            &&& final(buf)@ == record_bytes(
                target.spec_bytes(),
                level,
                module.spec_bytes(),
                file.spec_bytes(),
                line,
                message.spec_bytes(),
            ) + old(buf)@.subrange(n as int, old(buf)@.len() as int)
        },
        r matches Err(e) ==> e == LogError::CapacityExceeded,
{
    let ghost initial = buf@;
    let total = buf.len();
    let header_len = match write_record_header(buf, target, level, module, file, line) {
        Ok(n) => n,
        Err(e) => {
            return Err(e);
        },
    };
    if header_len > usize::MAX - RESERVED_BYTES {
        return Err(LogError::CapacityExceeded);
    }
    let mut writer = LogBufWriter::new(header_len);
    match writer.append(buf, message) {
        Ok(()) => {},
        Err(e) => {
            return Err(e);
        },
    }
    let section_len = match writer.finish(buf) {
        Ok(n) => n,
        Err(e) => {
            return Err(e);
        },
    };
    proof {
        lemma_header_len(
            target.spec_bytes(),
            level,
            module.spec_bytes(),
            file.spec_bytes(),
            line,
        );
        assert_seqs_equal!(
            buf@ == record_bytes(target.spec_bytes(), level, module.spec_bytes(),
                file.spec_bytes(), line, message.spec_bytes())
                + initial.subrange(
                    header_len + RESERVED_BYTES + message.spec_bytes().len(),
                    initial.len() as int)
        );
    }
    Ok(header_len + section_len)
}

/// What a field's payload and the bytes after it look like when the front
/// of `bytes` is a well-formed entry carrying the expected tag.
pub open spec fn spec_decode_expect(bytes: Seq<u8>, tag: FieldTag) -> Option<(Seq<u8>, Seq<u8>)> {
    match spec_decode(bytes) {
        Some(p) => if p.0 == tag {
            Some(
                (
                    p.1,
                    bytes.subrange(TAG_BYTES + LEN_BYTES + p.1.len(), bytes.len() as int),
                ),
            )
        } else {
            None
        },
        None => None,
    }
}

/// What a matching reader makes of a record region: the five metadata
/// fields in their canonical order, then the message — or nothing, if any
/// field is missing, out of order, or malformed.
pub open spec fn spec_decode_record(bytes: Seq<u8>) -> Option<
    (Seq<u8>, Level, Seq<u8>, Seq<u8>, u32, Seq<u8>),
> {
    match spec_decode_expect(bytes, FieldTag::Target) {
        None => None,
        Some((target, r1)) => match spec_decode_expect(r1, FieldTag::Level) {
            None => None,
            Some((level_value, r2)) => if level_value.len() != LEN_BYTES {
                None
            } else {
                match Level::spec_of_ordinal(spec_u64_from_le_bytes(level_value)) {
                    None => None,
                    Some(level) => match spec_decode_expect(r2, FieldTag::Module) {
                        None => None,
                        Some((module, r3)) => match spec_decode_expect(r3, FieldTag::File) {
                            None => None,
                            Some((file, r4)) => match spec_decode_expect(r4, FieldTag::Line) {
                                None => None,
                                Some((line_value, r5)) => if line_value.len() != LINE_BYTES {
                                    None
                                } else {
                                    match spec_decode_expect(r5, FieldTag::Log) {
                                        None => None,
                                        Some((message, _)) => Some(
                                            (
                                                target,
                                                level,
                                                module,
                                                file,
                                                spec_u32_from_le_bytes(line_value),
                                                message,
                                            ),
                                        ),
                                    }
                                },
                            },
                        },
                    },
                }
            },
        },
    }
}

/// Round trip for a whole record, and independence of record cycles: a
/// matching reader recovers exactly the fields and message that were
/// encoded, whatever residue follows the record — so a record written over
/// a previously used buffer slot reads the same as one written over a
/// fresh slot, since every length on the wire is explicit.
pub proof fn lemma_record_round_trip(
    target: Seq<u8>,
    level: Level,
    module: Seq<u8>,
    file: Seq<u8>,
    line: u32,
    message: Seq<u8>,
    residue: Seq<u8>,
)
    requires
        target.len() <= u64::MAX,
        module.len() <= u64::MAX,
        file.len() <= u64::MAX,
        message.len() <= u64::MAX,
    ensures
        spec_decode_record(record_bytes(target, level, module, file, line, message) + residue)
            == Some((target, level, module, file, line, message)),
{
    lemma_auto_spec_u64_to_from_le_bytes();
    lemma_auto_spec_u32_to_from_le_bytes();
    let bytes = record_bytes(target, level, module, file, line, message) + residue;
    let rest1 = tlv_bytes(FieldTag::Level, level_value_bytes(level)) + tlv_bytes(
        FieldTag::Module,
        module,
    ) + tlv_bytes(FieldTag::File, file) + tlv_bytes(FieldTag::Line, spec_u32_to_le_bytes(line))
        + tlv_bytes(FieldTag::Log, message) + residue;
    assert_seqs_equal!(bytes == tlv_bytes(FieldTag::Target, target) + rest1);
    lemma_tlv_round_trip(FieldTag::Target, target, rest1);
    let rest2 = tlv_bytes(FieldTag::Module, module) + tlv_bytes(FieldTag::File, file) + tlv_bytes(
        FieldTag::Line,
        spec_u32_to_le_bytes(line),
    ) + tlv_bytes(FieldTag::Log, message) + residue;
    assert_seqs_equal!(rest1 == tlv_bytes(FieldTag::Level, level_value_bytes(level)) + rest2);
    lemma_tlv_round_trip(FieldTag::Level, level_value_bytes(level), rest2);
    let rest3 = tlv_bytes(FieldTag::File, file) + tlv_bytes(
        FieldTag::Line,
        spec_u32_to_le_bytes(line),
    ) + tlv_bytes(FieldTag::Log, message) + residue;
    assert_seqs_equal!(rest2 == tlv_bytes(FieldTag::Module, module) + rest3);
    lemma_tlv_round_trip(FieldTag::Module, module, rest3);
    let rest4 = tlv_bytes(FieldTag::Line, spec_u32_to_le_bytes(line)) + tlv_bytes(
        FieldTag::Log,
        message,
    ) + residue;
    assert_seqs_equal!(rest3 == tlv_bytes(FieldTag::File, file) + rest4);
    lemma_tlv_round_trip(FieldTag::File, file, rest4);
    let rest5 = tlv_bytes(FieldTag::Log, message) + residue;
    assert_seqs_equal!(rest4 == tlv_bytes(FieldTag::Line, spec_u32_to_le_bytes(line)) + rest5);
    lemma_tlv_round_trip(FieldTag::Line, spec_u32_to_le_bytes(line), rest5);
    lemma_tlv_round_trip(FieldTag::Log, message, residue);
}

} // verus!
