//! A zero-allocation encoder that packs structured log records (a free-text
//! message plus contextual metadata) into a caller-supplied fixed-capacity
//! byte buffer, for transport out of a resource-constrained execution
//! context.
//!
//! Every write is bounds-checked against the buffer: a record that does not
//! fit is reported through a [`LogError`] value, never by panicking. A record
//! on the wire is a run of tag-length-value fields — first the five metadata
//! fields in a fixed order, then the message under its own tag and length.

use vstd::prelude::*;

pub mod header;
pub mod output;
pub mod record;
pub mod tlv;
pub mod wire;
pub mod writer;

verus! {

/// The two ways a record can fail to reach the reader.
///
/// Neither is recoverable inside the encoder: both are cheap, allocation-free
/// signals for a context where aborting execution is unacceptable but
/// returning an error is always safe.
#[derive(Clone, Copy, PartialEq, Eq, Structural, Debug)]
pub enum LogError {
    /// The destination buffer has too little room for the requested write.
    CapacityExceeded,
    /// The transport rejected the filled buffer with this negative status
    /// code. The code's meaning is defined by the transport.
    TransmitFailed(i64),
}

} // verus!
