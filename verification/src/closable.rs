//! The capability of being closed with the outcome observed.
use vstd::prelude::*;

use crate::error::{CloseError, Remnant};
use crate::os::OsReport;

verus! {

/// A file handle whose close can fail, and tells.
///
/// Each platform has one implementor, which fixes the platform's two
/// conventions: which status of the close primitive means success, and what
/// a failure leaves of the handle.
pub trait Closable: Sized {
    /// Whether `status`, as the platform's close primitive returned it, says
    /// that the close succeeded.
    spec fn reports_success(status: i32) -> bool;

    /// What is left of this handle once its close has failed.
    spec fn left_by_failure(self) -> Remnant;

    /// Concludes the close of this handle from `report`, which is what the
    /// platform's close primitive left behind when it was invoked on the
    /// handle's raw identifier.
    ///
    /// The handle is consumed whatever the outcome, so it can neither be used
    /// nor closed a second time. On success nothing is left. On failure the
    /// error holds the reported OS error and the remnant of the handle;
    /// nothing closes a surviving handle on the caller's behalf.
    fn close(self, report: OsReport) -> (result: Result<(), CloseError>)
        ensures
            result is Ok <==> Self::reports_success(report.status),
            result matches Err(error) ==> error.io_error() == report.last_error
                && error.remnant() == self.left_by_failure(),
    ;
}

/// `result` is the outcome of closing `handle` when the close primitive left
/// `report` behind.
pub open spec fn closes_as<C: Closable>(
    handle: C,
    report: OsReport,
    result: Result<(), CloseError>,
) -> bool {
    if C::reports_success(report.status) {
        result is Ok
    } else {
        result matches Err(error) && error.io_error() == report.last_error && error.remnant()
            == handle.left_by_failure()
    }
}

} // verus!
