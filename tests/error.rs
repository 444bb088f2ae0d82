use errno::{errno, set_errno, Errno};
use s2n_tls_poll::enums::Version;
use s2n_tls_poll::error::{
    poll_of, Context, Error, ErrorSlot, ErrorSource, ErrorType, Fallible, IoCategory, IoError, IoPayload,
    Pollable, NO_ERROR_CODE,
};
use std::convert::TryFrom;
use std::task::Poll;

const FAILURE: isize = -1;

// An I/O error status code of the engine: the first code of error type IO.
const S2N_IO_ERROR_CODE: i32 = 1 << 26;

fn code_of_type(t: i32, value: i32) -> i32 {
    (t << 26) + value
}

#[test]
fn s2n_io_error_to_std_io_error() -> Result<(), Box<dyn std::error::Error>> {
    set_errno(Errno(libc::ECONNRESET));
    let mut slot = ErrorSlot { code: S2N_IO_ERROR_CODE, errno: errno().0 };

    let s2n_error = FAILURE.into_result(&mut slot).unwrap_err();
    assert_eq!(ErrorType::IOError, s2n_error.kind());

    let io_error = s2n_error.into_io();
    assert_eq!(std::io::ErrorKind::ConnectionReset, io_error.kind());
    assert!(io_error.into_inner().is_some());
    Ok(())
}

#[test]
fn s2n_error_to_std_io_error() -> Result<(), Box<dyn std::error::Error>> {
    set_errno(Errno(libc::ECONNRESET));
    let mut slot = ErrorSlot { code: S2N_IO_ERROR_CODE - 1, errno: errno().0 };

    let s2n_error = FAILURE.into_result(&mut slot).unwrap_err();
    assert_ne!(ErrorType::IOError, s2n_error.kind());

    let io_error = s2n_error.into_io();
    assert_eq!(std::io::ErrorKind::Other, io_error.kind());
    assert!(io_error.into_inner().is_some());
    Ok(())
}

#[test]
fn invalid_input_to_std_io_error() -> Result<(), Box<dyn std::error::Error>> {
    let s2n_error = Version::try_from(0).unwrap_err();
    assert_eq!(ErrorType::UsageError, s2n_error.kind());

    let io_error = s2n_error.into_io();
    assert_eq!(std::io::ErrorKind::Other, io_error.kind());
    assert!(io_error.into_inner().is_some());
    Ok(())
}

#[test]
fn error_source() -> Result<(), Box<dyn std::error::Error>> {
    let bindings_error = Version::try_from(0).unwrap_err();
    assert_eq!(ErrorSource::Bindings, bindings_error.source());

    let mut slot = ErrorSlot { code: S2N_IO_ERROR_CODE, errno: errno().0 };
    let library_error = FAILURE.into_result(&mut slot).unwrap_err();
    assert_eq!(ErrorSource::Library, library_error.source());

    Ok(())
}

#[test]
fn failure_takes_and_clears_the_slot() {
    let code = code_of_type(5, 12);
    let mut slot = ErrorSlot { code, errno: 0 };
    let e = (-1i32).into_result(&mut slot).unwrap_err();
    assert_eq!(slot.code, NO_ERROR_CODE);
    assert_eq!(e.code(), Some(code));
    assert_eq!(e.kind(), ErrorType::ProtocolError);

    // A second failure right after sees the cleared slot, not the old error.
    let again = (-1i32).into_result(&mut slot).unwrap_err();
    assert_eq!(again.code(), Some(NO_ERROR_CODE));
    assert_eq!(again.kind(), ErrorType::NoError);
}

#[test]
fn captured_errno_is_kept() {
    set_errno(Errno(libc::EPIPE));
    let mut slot = ErrorSlot { code: S2N_IO_ERROR_CODE + 3, errno: errno().0 };
    let e = Error::capture(&mut slot);
    assert_eq!(e.errno(), Some(libc::EPIPE));
    assert_eq!(e.code(), Some(S2N_IO_ERROR_CODE + 3));
    assert_eq!(slot.code, NO_ERROR_CODE);
}

#[test]
fn success_leaves_the_slot_alone() {
    let mut slot = ErrorSlot { code: 77, errno: errno().0 };
    assert_eq!(0i32.into_result(&mut slot), Ok(0));
    assert_eq!(5i32.into_result(&mut slot), Ok(5));
    assert_eq!(0isize.into_result(&mut slot), Ok(0usize));
    assert_eq!(4096isize.into_result(&mut slot), Ok(4096usize));
    assert_eq!(0u64.into_result(&mut slot), Ok(0u64));
    assert_eq!((u64::MAX - 1).into_result(&mut slot), Ok(u64::MAX - 1));
    assert_eq!(slot.code, 77);
}

#[test]
fn failure_sentinels_per_width() {
    let mut slot = ErrorSlot { code: S2N_IO_ERROR_CODE, errno: errno().0 };
    assert!(u64::MAX.into_result(&mut slot).is_err());
    let mut slot = ErrorSlot { code: S2N_IO_ERROR_CODE, errno: errno().0 };
    assert!((-5isize).into_result(&mut slot).is_err());
    let mut slot = ErrorSlot { code: S2N_IO_ERROR_CODE, errno: errno().0 };
    assert!(i32::MIN.into_result(&mut slot).is_err());
    assert_eq!(slot.code, NO_ERROR_CODE);
}

#[test]
fn kinds_of_each_error_type() {
    let expected = [
        ErrorType::NoError,
        ErrorType::IOError,
        ErrorType::ConnectionClosed,
        ErrorType::Blocked,
        ErrorType::Alert,
        ErrorType::ProtocolError,
        ErrorType::InternalError,
        ErrorType::UsageError,
    ];
    for (t, kind) in expected.iter().enumerate() {
        let e = Error(Context::Code(code_of_type(t as i32, 9), 0));
        assert_eq!(e.kind(), *kind);
        assert_eq!(ErrorType::from(t as i32), *kind);
    }
    assert_eq!(
        Error(Context::Code(code_of_type(8, 0), 0)).kind(),
        ErrorType::UnknownErrorType
    );
    assert_eq!(Error(Context::Code(-1, 0)).kind(), ErrorType::UnknownErrorType);
    assert_eq!(ErrorType::from(-1), ErrorType::UnknownErrorType);
    assert_eq!(ErrorType::from(8), ErrorType::UnknownErrorType);
}

#[test]
fn only_blocked_is_retryable() {
    for t in 0..9 {
        let e = Error(Context::Code(code_of_type(t, 1), 0));
        assert_eq!(e.is_retryable(), t == 3);
    }
    assert!(!Error::invalid_input().is_retryable());
    assert!(!Error::missing_waker().is_retryable());
}

#[test]
fn binding_errors_are_usage_errors() {
    let e = Error::invalid_input();
    assert_eq!(e.kind(), ErrorType::UsageError);
    assert_eq!(e.source(), ErrorSource::Bindings);
    assert_eq!(e.name(), Some("InvalidInput"));
    assert_eq!(e.message(), Some("A parameter was incorrect"));
    assert_eq!(e.code(), None);
    assert_eq!(e.errno(), None);

    let w = Error::missing_waker();
    assert_eq!(w.kind(), ErrorType::UsageError);
    assert_eq!(w.source(), ErrorSource::Bindings);
    assert_eq!(w.name(), Some("MissingWaker"));

    let engine = Error(Context::Code(S2N_IO_ERROR_CODE, 0));
    assert_eq!(engine.name(), None);
    assert_eq!(engine.message(), None);
}

#[test]
fn poll_signals() {
    assert_eq!(poll_of::<u8>(Ok(3)), Poll::Ready(Ok(3)));
    let blocked = Error(Context::Code(code_of_type(3, 0), 0));
    assert_eq!(poll_of::<u8>(Err(blocked)), Poll::Pending);
    let closed = Error(Context::Code(code_of_type(2, 0), 0));
    assert_eq!(poll_of::<u8>(Err(closed)), Poll::Ready(Err(closed)));

    let mut slot = ErrorSlot { code: code_of_type(3, 1), errno: errno().0 };
    assert_eq!((-1isize).into_poll(&mut slot), Poll::Pending);
    assert_eq!(slot.code, NO_ERROR_CODE);
    let mut slot = ErrorSlot { code: code_of_type(7, 1), errno: errno().0 };
    match (-1i32).into_poll(&mut slot) {
        Poll::Ready(Err(e)) => assert_eq!(e.kind(), ErrorType::UsageError),
        other => panic!("unexpected {:?}", other),
    }
    let mut slot = ErrorSlot { code: 0, errno: errno().0 };
    assert_eq!(12isize.into_poll(&mut slot), Poll::Ready(Ok(12usize)));
}

#[test]
fn io_round_trip_keeps_the_error() {
    set_errno(Errno(libc::ECONNRESET));
    let mut slot = ErrorSlot { code: S2N_IO_ERROR_CODE, errno: errno().0 };
    let engine = FAILURE.into_result(&mut slot).unwrap_err();
    let back = Error::try_from_io(engine.into_io()).unwrap();
    assert_eq!(back, engine);
    assert_eq!(back.kind(), engine.kind());
    assert_eq!(back.name(), engine.name());
    assert_eq!(back.message(), engine.message());

    let protocol = Error(Context::Code(code_of_type(5, 2), 0));
    assert_eq!(Error::try_from_io(protocol.into_io()), Ok(protocol));

    let binding = Error::invalid_input();
    assert_eq!(Error::try_from_io(binding.into_io()), Ok(binding));
}

#[test]
fn io_error_without_our_payload_is_invalid_input() {
    let bare = IoError {
        category: IoCategory::Kind(std::io::ErrorKind::TimedOut),
        payload: IoPayload::Absent,
    };
    assert_eq!(Error::try_from_io(bare), Err(Error::invalid_input()));
    let foreign = IoError {
        category: IoCategory::Kind(std::io::ErrorKind::Other),
        payload: IoPayload::Foreign,
    };
    assert_eq!(Error::try_from_io(foreign), Err(Error::invalid_input()));
    assert_eq!(foreign.into_inner(), None);
}

#[test]
fn classify_through_error_new() {
    let mut slot = ErrorSlot { code: code_of_type(4, 2), errno: errno().0 };
    assert_eq!(Error::new(9i32, &mut slot), Ok(9));
    let e = Error::new(-1i32, &mut slot).unwrap_err();
    assert_eq!(e.kind(), ErrorType::Alert);
    assert_eq!(slot.code, NO_ERROR_CODE);
}

#[test]
fn capture_carries_the_slot_errno() {
    let mut slot = ErrorSlot { code: S2N_IO_ERROR_CODE + 1, errno: libc::ECONNREFUSED };
    let e = (-1isize).into_result(&mut slot).unwrap_err();
    assert_eq!(e, Error(Context::Code(S2N_IO_ERROR_CODE + 1, libc::ECONNREFUSED)));
    assert_eq!(slot, ErrorSlot { code: NO_ERROR_CODE, errno: libc::ECONNREFUSED });
}

#[test]
fn io_category_of_engine_errors() {
    let io = Error(Context::Code(S2N_IO_ERROR_CODE, libc::ECONNRESET)).into_io();
    assert_eq!(io.category, IoCategory::Os(libc::ECONNRESET));
    assert_eq!(io.kind(), std::io::ErrorKind::ConnectionReset);
    let closed = Error(Context::Code(code_of_type(2, 0), libc::ECONNRESET)).into_io();
    assert_eq!(closed.category, IoCategory::Kind(std::io::ErrorKind::Other));
    assert_eq!(closed.kind(), std::io::ErrorKind::Other);
}
