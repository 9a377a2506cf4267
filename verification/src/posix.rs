//! The close driver for platforms that follow the POSIX convention.
use vstd::prelude::*;

use crate::closable::Closable;
use crate::error::{CloseError, Remnant};
use crate::handle::Descriptor;
use crate::os::OsReport;

verus! {

impl Closable for Descriptor {
    /// `close(2)` returns zero on success; any other status is a failure.
    open spec fn reports_success(status: i32) -> bool {
        status == 0
    }

    /// `close(2)` releases the descriptor even when it fails, so only the
    /// number is left.
    open spec fn left_by_failure(self) -> Remnant {
        Remnant::Stale(self.raw())
    }

    fn close(self, report: OsReport) -> (result: Result<(), CloseError>)
        ensures
            report.status == 0 ==> result is Ok,
            report.status != 0 ==> (result matches Err(error) && error.io_error()
                == report.last_error && error.stale_fd() == Some(self.raw())),
    {
        let fd = self.into_raw();
        if report.status == 0 {
            Ok(())
        } else {
            Err(CloseError::new(report.last_error, Remnant::Stale(fd)))
        }
    }
}

} // verus!
