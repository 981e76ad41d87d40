use vstd::prelude::*;

use crate::error::{error_for_raw, LoaderError};
use crate::status::EfiStatusCode;

verus! {

/// The outcome of asking firmware for the first installed interface of a
/// capability, from the status and the interface address it wrote back.
pub open spec fn discovery_result(status: u64, interface: u64) -> Result<u64, LoaderError> {
    if status == EfiStatusCode::EfiSuccess.raw() && interface != 0 {
        Ok(interface)
    } else if status == EfiStatusCode::EfiSuccess.raw() || status
        == EfiStatusCode::EfiNotFound.raw() {
        Err(LoaderError::CapabilityNotFound)
    } else {
        Err(error_for_raw(status))
    }
}

/// Interprets firmware's answer to a capability lookup. A lookup succeeds
/// only with a non-null interface; a missing provider, or a success that
/// wrote back a null interface, is `CapabilityNotFound`.
pub fn discover(status: u64, interface: u64) -> (r: Result<u64, LoaderError>)
    ensures
        r == discovery_result(status, interface),
        r matches Ok(h) ==> h != 0,
        status == EfiStatusCode::EfiNotFound.raw() ==> r == Err::<u64, LoaderError>(
            LoaderError::CapabilityNotFound,
        ),
{
    if status == 0 {
        if interface != 0 {
            Ok(interface)
        } else {
            Err(LoaderError::CapabilityNotFound)
        }
    } else if status == EfiStatusCode::EfiNotFound.to_raw() {
        Err(LoaderError::CapabilityNotFound)
    } else {
        Err(LoaderError::from_status(status))
    }
}

/// A capability that firmware does not provide is never reported as
/// found: whatever such firmware answers (no provider, or a success with a
/// null interface), discovery fails with `CapabilityNotFound`.
pub proof fn lemma_missing_capability_not_found(status: u64, interface: u64)
    requires
        status == EfiStatusCode::EfiNotFound.raw() || (status == EfiStatusCode::EfiSuccess.raw()
            && interface == 0),
    ensures
        discovery_result(status, interface) == Err::<u64, LoaderError>(
            LoaderError::CapabilityNotFound,
        ),
{
}

} // verus!
