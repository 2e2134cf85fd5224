//! The output adapter's decision: how a transport status code turns into
//! the encoder's typed result. The transport itself — a one-shot,
//! non-blocking emit primitive — lives outside this crate; it hands back a
//! plain integer, negative on failure.

use vstd::prelude::*;

verus! {

use crate::LogError;

/// Translates the emit primitive's status code: a negative code is
/// surfaced verbatim as `TransmitFailed`, anything else is success. There
/// is no retry and no buffering — at most one emission attempt per record.
pub fn transmit_result(status: i64) -> (r: Result<(), LogError>)
    ensures
        r is Ok <==> status >= 0,
        r matches Err(e) ==> e == LogError::TransmitFailed(status),
{
    if status < 0 {
        Err(LogError::TransmitFailed(status))
    } else {
        Ok(())
    }
}

} // verus!
