//! The close driver for platforms that follow the Windows convention.
use vstd::prelude::*;

use crate::closable::Closable;
use crate::error::{CloseError, Remnant};
use crate::handle::Handle;
use crate::os::OsReport;

verus! {

impl Closable for Handle {
    /// `CloseHandle` returns nonzero on success and zero on failure.
    open spec fn reports_success(status: i32) -> bool {
        status != 0
    }

    /// A handle that `CloseHandle` failed to close is still open and valid.
    open spec fn left_by_failure(self) -> Remnant {
        Remnant::Live(self)
    }

    fn close(self, report: OsReport) -> (result: Result<(), CloseError>)
        ensures
            report.status != 0 ==> result is Ok,
            report.status == 0 ==> (result matches Err(error) && error.io_error()
                == report.last_error && error.remnant() == Remnant::Live(self)),
    {
        let handle = self.into_raw();
        if report.status != 0 {
            Ok(())
        } else {
            let recovered = Handle::from_raw(handle);
            proof {
                recovered.lemma_raw_is_all(self);
            }
            Err(CloseError::new(report.last_error, Remnant::Live(recovered)))
        }
    }
}

} // verus!
