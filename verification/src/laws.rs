//! What holds of every close, stated over the outcome relation
//! [`closes_as`] and proved from the two platforms' conventions.
use vstd::prelude::*;

use crate::closable::{closes_as, Closable};
use crate::error::{CloseError, Remnant};
use crate::handle::{Descriptor, Handle};
use crate::os::OsReport;

verus! {

/// A successful close gives back the unit value and nothing else. The handle
/// went into the close by value, so no value is left through which the
/// released resource could be reached: neither a token nor a raw identifier.
pub proof fn law_success_leaves_nothing<C: Closable>(
    handle: C,
    report: OsReport,
    result: Result<(), CloseError>,
)
    requires
        closes_as(handle, report, result),
        C::reports_success(report.status),
    ensures
        result == Ok::<(), CloseError>(()),
{
    assert(result->Ok_0 == ());
}

/// Every close has exactly one outcome up to what an error shows of itself:
/// whether it succeeded, and on failure the OS error and the remnant, are
/// fixed by the handle and the report.
pub proof fn law_outcome_is_determined<C: Closable>(
    handle: C,
    report: OsReport,
    one: Result<(), CloseError>,
    other: Result<(), CloseError>,
)
    requires
        closes_as(handle, report, one),
        closes_as(handle, report, other),
    ensures
        one is Ok <==> other is Ok,
        one is Err ==> one->Err_0.io_error() == other->Err_0.io_error() && one->Err_0.remnant()
            == other->Err_0.remnant(),
{
}

/// Where a failed close releases the resource all the same, the error names
/// the very descriptor that the token owned when the close began, and holds
/// no live handle.
pub proof fn law_failed_descriptor_is_named(
    descriptor: Descriptor,
    report: OsReport,
    error: CloseError,
)
    requires
        closes_as(descriptor, report, Err(error)),
    ensures
        report.status != 0,
        error.io_error() == report.last_error,
        error.stale_fd() == Some(descriptor.raw()),
        error.live_handle() is None,
{
}

/// Where a failed close leaves the resource open, the error gives the handle
/// back as it was, and the survivor closes exactly as the original would:
/// it succeeds once the primitive reports success, and fails with the same
/// error and the same remnant when the primitive reports the same again.
pub proof fn law_survivor_closes_like_original(
    handle: Handle,
    first: OsReport,
    error: CloseError,
    second: OsReport,
    retried: Result<(), CloseError>,
)
    requires
        closes_as(handle, first, Err(error)),
        closes_as(error.remnant()->Live_0, second, retried),
    ensures
        first.status == 0,
        error.io_error() == first.last_error,
        error.remnant() == Remnant::Live(handle),
        error.live_handle() == Some(handle.raw()),
        error.stale_fd() is None,
        closes_as(handle, second, retried),
        second.status != 0 ==> retried is Ok,
        second == first ==> retried is Err && retried->Err_0.io_error() == error.io_error()
            && retried->Err_0.remnant() == error.remnant(),
{
}

} // verus!
