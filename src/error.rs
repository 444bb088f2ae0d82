//! Classification of the engine's status codes into typed errors with retry
//! semantics, and the bridge between those errors and generic I/O errors.
use core::task::Poll;
use vstd::prelude::*;

verus! {

/// std's `core::task::Poll`, the signal of a single-step attempt, with its
/// two variants visible.
#[verifier::external_type_specification]
#[verifier::reject_recursive_types(T)]
pub struct ExPoll<T>(core::task::Poll<T>);

/// std's `std::io::ErrorKind`, the category of a generic I/O error, with its
/// variants visible.
#[verifier::external_type_specification]
pub struct ExIoErrorKind(std::io::ErrorKind);

/// Status code that the engine reports for success.
pub const STATUS_SUCCESS: i32 = 0;

/// Status code that the engine reports for failure.
pub const STATUS_FAILURE: i32 = -1;

/// Value of the engine's error slot when no error is pending.
pub const NO_ERROR_CODE: i32 = 0;

/// An engine status code numbers the error within its type in its low 26
/// bits and carries the type's number in the bits above: the type's number is
/// the code divided by this unit, 2 to the 26th.
pub const ERROR_TYPE_UNIT: i32 = 0x4000000;

/// Numbering of the engine's error types.
pub const ERROR_TYPE_OK: i32 = 0;
pub const ERROR_TYPE_IO: i32 = 1;
pub const ERROR_TYPE_CLOSED: i32 = 2;
pub const ERROR_TYPE_BLOCKED: i32 = 3;
pub const ERROR_TYPE_ALERT: i32 = 4;
pub const ERROR_TYPE_PROTO: i32 = 5;
pub const ERROR_TYPE_INTERNAL: i32 = 6;
pub const ERROR_TYPE_USAGE: i32 = 7;

#[non_exhaustive]
#[derive(Debug, Clone, Copy, PartialEq, Eq, Structural)]
pub enum ErrorType {
    UnknownErrorType,
    NoError,
    IOError,
    ConnectionClosed,
    Blocked,
    Alert,
    ProtocolError,
    InternalError,
    UsageError,
}

#[non_exhaustive]
#[derive(Debug, Clone, Copy, PartialEq, Eq, Structural)]
pub enum ErrorSource {
    Library,
    Bindings,
}

/// The error kind that the engine's error type number `t` stands for.
pub open spec fn error_type_of_number(t: int) -> ErrorType {
    if t == ERROR_TYPE_OK {
        ErrorType::NoError
    } else if t == ERROR_TYPE_IO {
        ErrorType::IOError
    } else if t == ERROR_TYPE_CLOSED {
        ErrorType::ConnectionClosed
    } else if t == ERROR_TYPE_BLOCKED {
        ErrorType::Blocked
    } else if t == ERROR_TYPE_ALERT {
        ErrorType::Alert
    } else if t == ERROR_TYPE_PROTO {
        ErrorType::ProtocolError
    } else if t == ERROR_TYPE_INTERNAL {
        ErrorType::InternalError
    } else if t == ERROR_TYPE_USAGE {
        ErrorType::UsageError
    } else {
        ErrorType::UnknownErrorType
    }
}

/// The number of the error type that a status code belongs to: the code's
/// bits above the low 26. A negative code has a negative type number, which
/// names no type.
pub open spec fn error_type_number(code: i32) -> int {
    if code < 0 {
        -1
    } else {
        code as int / ERROR_TYPE_UNIT as int
    }
}

/// The error kind of an engine status code.
pub open spec fn kind_of_code(code: i32) -> ErrorType {
    error_type_of_number(error_type_number(code))
}

impl From<i32> for ErrorType {
    fn from(input: i32) -> (r: ErrorType) {
        if input == ERROR_TYPE_OK {
            ErrorType::NoError
        } else if input == ERROR_TYPE_IO {
            ErrorType::IOError
        } else if input == ERROR_TYPE_CLOSED {
            ErrorType::ConnectionClosed
        } else if input == ERROR_TYPE_BLOCKED {
            ErrorType::Blocked
        } else if input == ERROR_TYPE_ALERT {
            ErrorType::Alert
        } else if input == ERROR_TYPE_PROTO {
            ErrorType::ProtocolError
        } else if input == ERROR_TYPE_INTERNAL {
            ErrorType::InternalError
        } else if input == ERROR_TYPE_USAGE {
            ErrorType::UsageError
        } else {
            ErrorType::UnknownErrorType
        }
    }
}

impl vstd::std_specs::convert::FromSpecImpl<i32> for ErrorType {
    open spec fn obeys_from_spec() -> bool {
        true
    }

    open spec fn from_spec(input: i32) -> ErrorType {
        error_type_of_number(input as int)
    }
}

/// Computes the engine's error type number of a status code.
pub fn error_type_number_of(code: i32) -> (t: i32)
    ensures
        t as int == error_type_number(code),
{
    if code < 0 {
        -1
    } else {
        code / ERROR_TYPE_UNIT
    }
}

/// What an error carries: a failure of this library's own checks, or a status
/// code that the engine reported together with the OS error number at the
/// time of the failure.
#[derive(Debug, Clone, Copy, PartialEq, Eq, Structural)]
pub enum Context {
    InvalidInput,
    MissingWaker,
    Code(i32, i32),
}

#[derive(Debug, Clone, Copy, PartialEq, Eq, Structural)]
pub struct Error(pub Context);

/// What a failure leaves behind, as read right after the failing engine call:
/// the engine's error slot, holding the status code of the most recent
/// failure or `NO_ERROR_CODE` once that failure has been taken, and the
/// thread's OS error number.
#[derive(Debug, Clone, Copy, PartialEq, Eq, Structural)]
pub struct ErrorSlot {
    pub code: i32,
    pub errno: i32,
}

/// The error that taking the failure out of `slot` gives.
pub open spec fn captured(slot: ErrorSlot) -> Error {
    Error(Context::Code(slot.code, slot.errno))
}

/// The slot once its failure has been taken: cleared to `NO_ERROR_CODE`.
pub open spec fn cleared(slot: ErrorSlot) -> ErrorSlot {
    ErrorSlot { code: NO_ERROR_CODE, ..slot }
}

impl Error {
    pub open spec fn kind_spec(self) -> ErrorType {
        match self.0 {
            Context::InvalidInput => ErrorType::UsageError,
            Context::MissingWaker => ErrorType::UsageError,
            Context::Code(code, _) => kind_of_code(code),
        }
    }

    pub open spec fn source_spec(self) -> ErrorSource {
        match self.0 {
            Context::Code(_, _) => ErrorSource::Library,
            _ => ErrorSource::Bindings,
        }
    }

    pub open spec fn is_retryable_spec(self) -> bool {
        self.kind_spec() == ErrorType::Blocked
    }

    /// Classifies a raw result of an engine call.
    pub fn new<T: Fallible>(value: T, slot: &mut ErrorSlot) -> (r: Result<T::Output, Error>)
        ensures
            r is Err <==> value.signals_failure(),
            !value.signals_failure() ==> r == Ok::<T::Output, Error>(value.output_of())
                && *final(slot) == *old(slot),
            value.signals_failure() ==> r == Err::<T::Output, Error>(captured(*old(slot)))
                && *final(slot) == cleared(*old(slot)),
    {
        value.into_result(slot)
    }

    /// A caller supplied a value that the engine cannot take.
    pub fn invalid_input() -> (e: Error)
        ensures
            e == Error(Context::InvalidInput),
    {
        Error(Context::InvalidInput)
    }

    /// An operation had to suspend but no notification handle was registered.
    pub fn missing_waker() -> (e: Error)
        ensures
            e == Error(Context::MissingWaker),
    {
        Error(Context::MissingWaker)
    }

    /// Takes the engine's pending failure out of its error slot, clearing the
    /// slot so that a later failure is not confused with this one.
    pub fn capture(slot: &mut ErrorSlot) -> (e: Error)
        ensures
            e == captured(*old(slot)),
            *final(slot) == cleared(*old(slot)),
    {
        let code = slot.code;
        slot.code = NO_ERROR_CODE;
        Error(Context::Code(code, slot.errno))
    }

    /// The engine status code, for an error that the engine reported.
    pub fn code(&self) -> (r: Option<i32>)
        ensures
            r == (match self.0 {
                Context::Code(code, _) => Some(code),
                _ => None::<i32>,
            }),
    {
        match self.0 {
            Context::Code(code, _) => Some(code),
            _ => None,
        }
    }

    /// The OS error number captured with an error that the engine reported.
    pub fn errno(&self) -> (r: Option<i32>)
        ensures
            r == (match self.0 {
                Context::Code(_, errno) => Some(errno),
                _ => None::<i32>,
            }),
    {
        match self.0 {
            Context::Code(_, errno) => Some(errno),
            _ => None,
        }
    }

    /// The name of an error that this library raised itself. The names of the
    /// engine's errors live in the engine's own table: for those this is
    /// `None`.
    pub fn name(&self) -> (r: Option<&'static str>)
        ensures
            self.0 is Code <==> r is None,
            self.0 is InvalidInput ==> r == Some("InvalidInput"),
            self.0 is MissingWaker ==> r == Some("MissingWaker"),
    {
        match self.0 {
            Context::InvalidInput => Some("InvalidInput"),
            Context::MissingWaker => Some("MissingWaker"),
            Context::Code(_, _) => None,
        }
    }

    /// The message of an error that this library raised itself; `None` for the
    /// engine's errors, whose messages live in the engine's own table.
    pub fn message(&self) -> (r: Option<&'static str>)
        ensures
            self.0 is Code <==> r is None,
            self.0 is InvalidInput ==> r == Some("A parameter was incorrect"),
            self.0 is MissingWaker ==> r == Some(
                "Tried to perform an asynchronous operation without a configured waker",
            ),
    {
        match self.0 {
            Context::InvalidInput => Some("A parameter was incorrect"),
            Context::MissingWaker => Some(
                "Tried to perform an asynchronous operation without a configured waker",
            ),
            Context::Code(_, _) => None,
        }
    }

    pub fn kind(&self) -> (r: ErrorType)
        ensures
            r == self.kind_spec(),
    {
        match self.0 {
            Context::InvalidInput => ErrorType::UsageError,
            Context::MissingWaker => ErrorType::UsageError,
            Context::Code(code, _) => ErrorType::from(error_type_number_of(code)),
        }
    }

    pub fn source(&self) -> (r: ErrorSource)
        ensures
            r == self.source_spec(),
    {
        match self.0 {
            Context::Code(_, _) => ErrorSource::Library,
            _ => ErrorSource::Bindings,
        }
    }

    pub fn is_retryable(&self) -> (r: bool)
        ensures
            r == self.is_retryable_spec(),
    {
        match self.kind() {
            ErrorType::Blocked => true,
            _ => false,
        }
    }
}

/// A raw result of an engine call, which either carries a value or signals a
/// failure whose details wait in the engine's error slot.
pub trait Fallible: Sized {
    type Output;

    /// Whether the raw result signals a failure.
    spec fn signals_failure(&self) -> bool;

    /// The value that a raw result carries when it signals no failure.
    spec fn output_of(&self) -> Self::Output;

    /// On failure takes the pending error out of the slot and clears the
    /// slot; on success leaves the slot alone.
    fn into_result(self, slot: &mut ErrorSlot) -> (r: Result<Self::Output, Error>)
        ensures
            r is Err <==> self.signals_failure(),
            !self.signals_failure() ==> r == Ok::<Self::Output, Error>(self.output_of())
                && *final(slot) == *old(slot),
            self.signals_failure() ==> r == Err::<Self::Output, Error>(captured(*old(slot)))
                && *final(slot) == cleared(*old(slot)),
    ;
}

/// A status code: negative values signal failure.
impl Fallible for i32 {
    type Output = i32;

    open spec fn signals_failure(&self) -> bool {
        *self < STATUS_SUCCESS
    }

    open spec fn output_of(&self) -> i32 {
        *self
    }

    fn into_result(self, slot: &mut ErrorSlot) -> (r: Result<i32, Error>) {
        if self >= STATUS_SUCCESS {
            Ok(self)
        } else {
            Err(Error::capture(slot))
        }
    }
}

/// A signed size: negative values cannot be a size and signal failure.
impl Fallible for isize {
    type Output = usize;

    open spec fn signals_failure(&self) -> bool {
        *self < 0
    }

    open spec fn output_of(&self) -> usize {
        *self as usize
    }

    fn into_result(self, slot: &mut ErrorSlot) -> (r: Result<usize, Error>) {
        if self >= 0 {
            Ok(self as usize)
        } else {
            Err(Error::capture(slot))
        }
    }
}

/// An unsigned 64-bit value, where zero is a legitimate result: the engine's
/// failure result of -1 arrives as `u64::MAX`, which therefore signals
/// failure.
impl Fallible for u64 {
    type Output = u64;

    open spec fn signals_failure(&self) -> bool {
        *self == u64::MAX
    }

    open spec fn output_of(&self) -> u64 {
        *self
    }

    fn into_result(self, slot: &mut ErrorSlot) -> (r: Result<u64, Error>) {
        if self != u64::MAX {
            Ok(self)
        } else {
            Err(Error::capture(slot))
        }
    }
}

/// The three-way signal of a single-step attempt for a result `r`.
pub open spec fn poll_spec<T>(r: Result<T, Error>) -> Poll<Result<T, Error>> {
    match r {
        Ok(v) => Poll::Ready(Ok(v)),
        Err(e) => if e.is_retryable_spec() {
            Poll::Pending
        } else {
            Poll::Ready(Err(e))
        },
    }
}

/// Turns a result into the signal of a single-step attempt: a retryable
/// error asks the caller to try again later, every other outcome is final.
pub fn poll_of<T>(r: Result<T, Error>) -> (p: Poll<Result<T, Error>>)
    ensures
        p == poll_spec(r),
{
    match r {
        Ok(v) => Poll::Ready(Ok(v)),
        Err(e) => if e.is_retryable() {
            Poll::Pending
        } else {
            Poll::Ready(Err(e))
        },
    }
}

/// A raw result of an engine call, read as the signal of a single-step
/// attempt.
pub trait Pollable: Fallible {
    fn into_poll(self, slot: &mut ErrorSlot) -> (p: Poll<Result<<Self as Fallible>::Output, Error>>)
        ensures
            !self.signals_failure() ==> p == Poll::Ready(
                Ok::<<Self as Fallible>::Output, Error>(self.output_of()),
            ) && *final(slot) == *old(slot),
            self.signals_failure() ==> p == poll_spec(
                Err::<<Self as Fallible>::Output, Error>(captured(*old(slot))),
            ) && *final(slot) == cleared(*old(slot)),
    ;
}

impl<T: Fallible> Pollable for T {
    fn into_poll(self, slot: &mut ErrorSlot) -> (p: Poll<Result<T::Output, Error>>) {
        poll_of(self.into_result(slot))
    }
}

/// What a generic I/O error carries besides its category.
#[derive(Debug, Clone, Copy, PartialEq, Eq, Structural)]
pub enum IoPayload {
    /// Nothing: the I/O error was made from a bare category or OS error.
    Absent,
    /// An error of this library.
    Tls(Error),
    /// Some other error value.
    Foreign,
}

/// The category of a generic I/O error: the one that the platform gives an
/// OS error number, or a category named outright.
#[derive(Debug, Clone, Copy, PartialEq, Eq)]
pub enum IoCategory {
    Os(i32),
    Kind(std::io::ErrorKind),
}

/// A generic I/O error: a category, and what was attached to it.
#[derive(Debug, Clone, Copy, PartialEq, Eq)]
pub struct IoError {
    pub category: IoCategory,
    pub payload: IoPayload,
}

/// std's `std::io::Error`, held only for the category of an OS error number.
#[verifier::external_type_specification]
#[verifier::external_body]
pub struct ExStdIoError(std::io::Error);

/// Relies on std::io::Error::from_raw_os_error: wraps an OS error number.
pub assume_specification[ std::io::Error::from_raw_os_error ](code: i32) -> std::io::Error;

/// Relies on std::io::Error::kind: the category of an I/O error, which for one
/// made from an OS error number is the platform's category of that number.
pub assume_specification[ std::io::Error::kind ](e: &std::io::Error) -> std::io::ErrorKind;

/// The error that a generic I/O error converts back to: only an error of this
/// library that was attached to it; anything else is refused as invalid input.
pub open spec fn error_of_io(io: IoError) -> Result<Error, Error> {
    match io.payload {
        IoPayload::Tls(e) => Ok(e),
        _ => Err(Error(Context::InvalidInput)),
    }
}

/// The generic I/O error that carries `e`. An I/O error reported by the
/// engine takes the category of its captured OS error number; every other
/// error has the category `Other`.
pub open spec fn io_of(e: Error) -> IoError {
    IoError {
        category: if e.0 is Code && e.kind_spec() == ErrorType::IOError {
            IoCategory::Os(e.0->Code_1)
        } else {
            IoCategory::Kind(std::io::ErrorKind::Other)
        },
        payload: IoPayload::Tls(e),
    }
}

impl Error {
    /// Converts to a generic I/O error that carries this error.
    pub fn into_io(self) -> (io: IoError)
        ensures
            io == io_of(self),
    {
        let category = match self.0 {
            Context::Code(_, errno) => if self.kind() == ErrorType::IOError {
                IoCategory::Os(errno)
            } else {
                IoCategory::Kind(std::io::ErrorKind::Other)
            },
            _ => IoCategory::Kind(std::io::ErrorKind::Other),
        };
        IoError { category, payload: IoPayload::Tls(self) }
    }

    /// Recovers the error that a generic I/O error carries.
    pub fn try_from_io(io: IoError) -> (r: Result<Error, Error>)
        ensures
            r == error_of_io(io),
    {
        match io.payload {
            IoPayload::Tls(e) => Ok(e),
            _ => Err(Error::invalid_input()),
        }
    }
}

impl IoError {
    /// The category as std names it. For an OS error number it is the
    /// category that the platform gives that number.
    pub fn kind(&self) -> (k: std::io::ErrorKind)
        ensures
            self.category matches IoCategory::Kind(named) ==> k == named,
    {
        match self.category {
            IoCategory::Os(errno) => std::io::Error::from_raw_os_error(errno).kind(),
            IoCategory::Kind(named) => named,
        }
    }

    /// The error value attached to this I/O error, if it is one of this
    /// library's.
    pub fn into_inner(self) -> (r: Option<Error>)
        ensures
            r == (match self.payload {
                IoPayload::Tls(e) => Some(e),
                _ => None::<Error>,
            }),
    {
        match self.payload {
            IoPayload::Tls(e) => Some(e),
            _ => None,
        }
    }
}

/// Converting an error to a generic I/O error and back gives the same error,
/// so its kind, source, name and message are unchanged.
pub proof fn lemma_io_round_trip(e: Error)
    ensures
        error_of_io(io_of(e)) == Ok::<Error, Error>(e),
        error_of_io(io_of(e))->Ok_0.kind_spec() == e.kind_spec(),
        error_of_io(io_of(e))->Ok_0.source_spec() == e.source_spec(),
{
}

} // verus!
