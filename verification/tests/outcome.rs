use close_file::{Closable, CloseError, Descriptor, Handle, OsError, OsReport, Remnant};

const EBADF: i32 = 9;
const EIO: i32 = 5;
const ERROR_INVALID_HANDLE: i32 = 6;

fn report(status: i32, code: i32) -> OsReport {
    OsReport { status, last_error: OsError { code } }
}

fn failure(result: Result<(), CloseError>) -> CloseError {
    match result {
        Ok(()) => panic!("the close succeeded"),
        Err(error) => error,
    }
}

#[test]
fn close() {
    let descriptor = Descriptor::from_raw(3);
    assert!(descriptor.close(report(0, 0)).is_ok());
}

#[test]
fn posix_zero_is_success() {
    assert!(Descriptor::from_raw(0).close(report(0, EBADF)).is_ok());
    assert!(Descriptor::from_raw(i32::MAX).close(report(0, 0)).is_ok());
}

#[test]
fn posix_minus_one_is_failure() {
    let error = failure(Descriptor::from_raw(7).close(report(-1, EBADF)));
    assert_eq!(error.as_io_error(), &OsError { code: EBADF });
    assert_eq!(error.raw_fd(), Some(7));
    assert_eq!(error.raw_handle(), None);
}

#[test]
fn posix_any_nonzero_is_failure() {
    for status in [1, 2, -2, i32::MIN, i32::MAX] {
        let error = failure(Descriptor::from_raw(11).close(report(status, EIO)));
        assert_eq!(error.as_io_error().code, EIO);
        assert_eq!(error.raw_fd(), Some(11));
    }
}

#[test]
fn posix_failure_names_the_exact_descriptor() {
    for fd in [0, 1, 2, 3, 1023, i32::MAX, -1, i32::MIN] {
        let descriptor = Descriptor::from_raw(fd);
        let before = descriptor.as_raw();
        let error = failure(descriptor.close(report(-1, EBADF)));
        assert_eq!(error.raw_fd(), Some(before));
        assert_eq!(before, fd);
    }
}

#[test]
fn posix_failure_leaves_only_the_stale_identifier() {
    let error = failure(Descriptor::from_raw(42).close(report(-1, EIO)));
    match error.into_remnant() {
        Remnant::Stale(fd) => assert_eq!(fd, 42),
        Remnant::Live(_) => panic!("a released descriptor came back as a live handle"),
    }
}

#[test]
fn windows_nonzero_is_success() {
    for status in [1, 2, -1, i32::MIN, i32::MAX] {
        assert!(Handle::from_raw(0x1f4).close(report(status, 0)).is_ok());
    }
}

#[test]
fn windows_zero_is_failure() {
    let error = failure(Handle::from_raw(0x1f4).close(report(0, ERROR_INVALID_HANDLE)));
    assert_eq!(error.as_io_error(), &OsError { code: ERROR_INVALID_HANDLE });
    assert_eq!(error.raw_handle(), Some(0x1f4));
    assert_eq!(error.raw_fd(), None);
}

#[test]
fn windows_failure_gives_the_handle_back() {
    for raw in [0usize, 4, 0x1f4, usize::MAX] {
        let error = failure(Handle::from_raw(raw).close(report(0, ERROR_INVALID_HANDLE)));
        match error.into_remnant() {
            Remnant::Live(survivor) => {
                assert_eq!(survivor.as_raw(), raw);
                assert_eq!(survivor.into_raw(), raw);
            }
            Remnant::Stale(_) => panic!("a surviving handle came back as a stale descriptor"),
        }
    }
}

#[test]
fn windows_survivor_closes_on_retry() {
    let error = failure(Handle::from_raw(88).close(report(0, EIO)));
    let survivor = match error.into_remnant() {
        Remnant::Live(survivor) => survivor,
        Remnant::Stale(_) => panic!("a surviving handle came back as a stale descriptor"),
    };
    assert!(survivor.close(report(1, 0)).is_ok());
}

#[test]
fn windows_survivor_fails_the_same_way_again() {
    let fault = report(0, EIO);
    let first = failure(Handle::from_raw(88).close(fault));
    let code = first.as_io_error().code;
    let raw = first.raw_handle();
    let survivor = match first.into_remnant() {
        Remnant::Live(survivor) => survivor,
        Remnant::Stale(_) => panic!("a surviving handle came back as a stale descriptor"),
    };
    let second = failure(survivor.close(fault));
    assert_eq!(second.as_io_error().code, code);
    assert_eq!(second.raw_handle(), raw);
    assert_eq!(second.raw_handle(), Some(88));
}

#[test]
fn the_two_platforms_read_one_status_oppositely() {
    assert!(Descriptor::from_raw(5).close(report(0, 0)).is_ok());
    assert!(Handle::from_raw(5).close(report(0, 0)).is_err());
    assert!(Descriptor::from_raw(5).close(report(1, 0)).is_err());
    assert!(Handle::from_raw(5).close(report(1, 0)).is_ok());
}

#[test]
fn the_error_carries_the_reported_code_unchanged() {
    for code in [0, 1, EIO, EBADF, 28, 122, -1, i32::MIN, i32::MAX] {
        let posix = failure(Descriptor::from_raw(3).close(report(-1, code)));
        assert_eq!(*posix.as_io_error(), OsError { code });
        let windows = failure(Handle::from_raw(3).close(report(0, code)));
        assert_eq!(*windows.as_io_error(), OsError { code });
    }
}

#[test]
fn a_success_ignores_the_last_error() {
    assert!(Descriptor::from_raw(3).close(report(0, EIO)).is_ok());
    assert!(Handle::from_raw(3).close(report(1, EIO)).is_ok());
}

#[test]
fn raw_conversions_round_trip() {
    let descriptor = Descriptor::from_raw(17);
    assert_eq!(descriptor.as_raw(), 17);
    assert_eq!(descriptor.into_raw(), 17);
    let handle = Handle::from_raw(0xbeef);
    assert_eq!(handle.as_raw(), 0xbeef);
    assert_eq!(handle.into_raw(), 0xbeef);
}

#[test]
fn exactly_one_retry_accessor_answers() {
    let posix = failure(Descriptor::from_raw(9).close(report(-1, EBADF)));
    assert!(posix.raw_fd().is_some() && posix.raw_handle().is_none());
    let windows = failure(Handle::from_raw(9).close(report(0, ERROR_INVALID_HANDLE)));
    assert!(windows.raw_fd().is_none() && windows.raw_handle().is_some());
}
