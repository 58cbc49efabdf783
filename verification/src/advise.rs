//! From the host's reply to a `Result`, and the stand-in for hosts that have
//! no advisory facility.

use vstd::prelude::*;
use crate::error::AdviseError;
use crate::pattern::AccessPattern;

verus! {

/// Turns the status that the host's advisory call returned into a `Result`.
///
/// A status of zero is success. Any other status is a refusal, and the error
/// is the one the host has on record for the calling thread at this moment,
/// which always carries a host code: call this directly after the advisory
/// call, with nothing in between.
/// The host's record is read only when the status reports a refusal.
pub fn outcome(status: i32) -> (result: Result<(), AdviseError>)
    ensures
        result is Ok <==> status == 0,
        result matches Err(refusal) ==> refusal.spec_raw_os_error() is Some,
{
    if status == 0 {
        Ok(())
    } else {
        Err(AdviseError::last_os_error())
    }
}

/// The advisory capability on a host without an advisory facility: nothing is
/// done, and every hint on every byte sequence, the empty one included, is
/// reported as accepted.
#[allow(unused_variables)]
pub fn advise_unsupported(bytes: &[u8], advice: AccessPattern) -> (result: Result<(), AdviseError>)
    ensures
        result == Ok::<(), AdviseError>(()),
{
    Ok(())
}

} // verus!
