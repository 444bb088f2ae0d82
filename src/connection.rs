//! The per-connection side state that the engine does not own, and the
//! decisions of the poll operations that drive a connection.
//!
//! A connection's owner performs the engine calls and the callback polls; the
//! functions here decide, from the side state and what those calls returned,
//! what happens next and what the caller is told.
use crate::enums::{
    hash_algorithm_result, signature_algorithm_result, HashAlgorithm, Mode, SignatureAlgorithm,
    HASH_NONE, SIGNATURE_ANONYMOUS,
};
use crate::error::{
    captured, cleared, kind_of_code, poll_of, poll_spec, Context as ErrorContext, Error, ErrorSlot,
    ErrorType, Fallible,
};
use core::task::Poll;
use vstd::prelude::*;

verus! {

/// What a connection's side state holds, as the contracts speak of it: the
/// role, the registered notification handle of type `W`, the at most one
/// pending asynchronous operation of type `F` that the handshake waits on, and
/// whether the handshake's one-time initialization has happened.
pub struct ContextState<W, F> {
    pub mode: Mode,
    pub waker: Option<W>,
    pub async_callback: Option<F>,
    pub connection_initialized: bool,
}

/// Per-connection state that lives exactly as long as the connection. Its
/// fields change only through the operations below.
pub struct Context<W, F> {
    mode: Mode,
    waker: Option<W>,
    async_callback: Option<F>,
    connection_initialized: bool,
}

/// What the owner of a connection does next in a negotiate attempt.
pub enum NegotiateStep<F> {
    /// Resume this pending operation with the registered notification handle,
    /// then report its outcome with `Context::callback_polled`.
    Resume(F),
    /// Advance the engine's handshake by one step, then report its status
    /// with `Context::engine_stepped`.
    Advance,
    /// The attempt is over, with this signal for the caller.
    Finish(Poll<Result<(), Error>>),
}

impl<W, F> View for Context<W, F> {
    type V = ContextState<W, F>;

    closed spec fn view(&self) -> ContextState<W, F> {
        ContextState {
            mode: self.mode,
            waker: self.waker,
            async_callback: self.async_callback,
            connection_initialized: self.connection_initialized,
        }
    }
}

impl<W, F> ContextState<W, F> {
    /// The state of a connection that has just been created in role `mode`.
    pub open spec fn fresh(mode: Mode) -> Self {
        ContextState { mode, waker: None, async_callback: None, connection_initialized: false }
    }

    /// The state after `set_waker(waker, wakes_same_task)`.
    pub open spec fn with_waker(self, waker: Option<W>, wakes_same_task: bool) -> Self {
        match waker {
            None => ContextState { waker: None, ..self },
            Some(w) => if self.waker is Some && wakes_same_task {
                self
            } else {
                ContextState { waker: Some(w), ..self }
            },
        }
    }

    /// The one-time initializer is due at the start of a negotiate attempt.
    pub open spec fn initializer_due(self) -> bool {
        !self.connection_initialized
    }

    /// The state once a negotiate attempt has started.
    pub open spec fn after_begin(self) -> Self {
        ContextState { connection_initialized: true, ..self }
    }

    /// `after` has the initialization mark of this state.
    pub open spec fn keeps_initialized(self, after: Self) -> bool {
        after.connection_initialized == self.connection_initialized
    }

    /// The state without a waiting operation.
    pub open spec fn without_callback(self) -> Self {
        ContextState { async_callback: None, ..self }
    }

    /// The step that resumes the waiting operation: it cannot suspend without
    /// a registered notification handle, so without one the attempt fails.
    pub open spec fn resume_step(self) -> NegotiateStep<F> {
        if self.waker is Some {
            NegotiateStep::Resume(self.async_callback->0)
        } else {
            NegotiateStep::Finish(Poll::Ready(Err(Error(ErrorContext::MissingWaker))))
        }
    }
}

impl<W, F> Context<W, F> {
    pub fn new(mode: Mode) -> (c: Self)
        ensures
            c@ == ContextState::<W, F>::fresh(mode),
    {
        Context { mode, waker: None, async_callback: None, connection_initialized: false }
    }

    pub fn mode(&self) -> (r: Mode)
        ensures
            r == self@.mode,
    {
        self.mode
    }

    /// Whether the handshake's one-time initialization has happened.
    pub fn is_initialized(&self) -> (r: bool)
        ensures
            r == self@.connection_initialized,
    {
        self.connection_initialized
    }

    /// The registered notification handle, if any.
    pub fn waker(&self) -> (r: Option<&W>)
        ensures
            r is Some <==> self@.waker is Some,
            r is Some ==> *r->0 == self@.waker->0,
    {
        self.waker.as_ref()
    }

    /// Registers a notification handle, or clears it when `waker` is `None`.
    /// `wakes_same_task` tells whether `waker` wakes the same pending task as
    /// the handle already registered; if so the registered one is kept.
    pub fn set_waker(&mut self, waker: Option<W>, wakes_same_task: bool)
        ensures
            final(self)@ == old(self)@.with_waker(waker, wakes_same_task),
            old(self)@.keeps_initialized(final(self)@),
    {
        match waker {
            None => {
                self.waker = None;
            },
            Some(w) => {
                if !(self.waker.is_some() && wakes_same_task) {
                    self.waker = Some(w);
                }
            },
        }
    }

    /// Starts a negotiate attempt: marks the handshake as initialized and
    /// tells whether it was not yet. Then, and only then, the one-time
    /// initializer is due.
    pub fn begin_negotiate(&mut self) -> (due: bool)
        ensures
            due == old(self)@.initializer_due(),
            final(self)@ == old(self)@.after_begin(),
    {
        let due = !self.connection_initialized;
        self.connection_initialized = true;
        due
    }

    pub fn has_async_callback(&self) -> (r: bool)
        ensures
            r == self@.async_callback is Some,
    {
        self.async_callback.is_some()
    }

    /// Stores the operation that the handshake waits on. One that is already
    /// waiting is never replaced: then `callback` is handed back.
    pub fn set_async_callback(&mut self, callback: F) -> (r: Result<(), F>)
        ensures
            old(self)@.async_callback is Some ==> r == Err::<(), F>(callback) && final(self)@
                == old(self)@,
            old(self)@.async_callback is None ==> r is Ok && final(self)@ == (ContextState {
                async_callback: Some(callback),
                ..old(self)@
            }),
            old(self)@.keeps_initialized(final(self)@),
    {
        if self.async_callback.is_some() {
            Err(callback)
        } else {
            self.async_callback = Some(callback);
            Ok(())
        }
    }

    /// Takes the waiting operation out, leaving none.
    pub fn take_async_callback(&mut self) -> (r: Option<F>)
        ensures
            r == old(self)@.async_callback,
            final(self)@ == old(self)@.without_callback(),
            old(self)@.keeps_initialized(final(self)@),
    {
        self.async_callback.take()
    }

    /// Erases the state for the reuse of the connection: only the role is
    /// kept.
    pub fn wipe(&mut self)
        ensures
            final(self)@ == ContextState::<W, F>::fresh(old(self)@.mode),
    {
        self.waker = None;
        self.async_callback = None;
        self.connection_initialized = false;
    }

    /// The next step of a negotiate attempt: resume a waiting operation, or
    /// else advance the engine.
    pub fn next_negotiate_step(&mut self) -> (step: NegotiateStep<F>)
        ensures
            old(self)@.async_callback is None ==> step is Advance && final(self)@ == old(self)@,
            old(self)@.async_callback is Some ==> step == old(self)@.resume_step() && final(self)@ == old(self)@.without_callback(),
            old(self)@.keeps_initialized(final(self)@),
    {
        match self.async_callback.take() {
            None => NegotiateStep::Advance,
            Some(callback) => if self.waker.is_none() {
                NegotiateStep::Finish(Poll::Ready(Err(Error::missing_waker())))
            } else {
                NegotiateStep::Resume(callback)
            },
        }
    }

    /// Reports what resuming `callback` gave. Completion lets the engine
    /// advance; a failure aborts the handshake; a suspended operation is kept
    /// for the next attempt.
    pub fn callback_polled(&mut self, callback: F, outcome: Poll<Result<(), Error>>) -> (step:
        NegotiateStep<F>)
        requires
            outcome is Pending ==> old(self)@.async_callback is None,
        ensures
            outcome == Poll::Ready(Ok::<(), Error>(())) ==> step is Advance && final(self)@
                == old(self)@,
            outcome matches Poll::Ready(Err(e)) ==> step == NegotiateStep::<F>::Finish(
                Poll::Ready(Err(e)),
            ) && final(self)@ == old(self)@,
            outcome is Pending ==> step == NegotiateStep::<F>::Finish(Poll::Pending) && final(self)@ == (ContextState { async_callback: Some(callback), ..old(self)@ }),
            old(self)@.keeps_initialized(final(self)@),
    {
        match outcome {
            Poll::Ready(Ok(())) => NegotiateStep::Advance,
            Poll::Ready(Err(e)) => NegotiateStep::Finish(Poll::Ready(Err(e))),
            Poll::Pending => {
                self.async_callback = Some(callback);
                NegotiateStep::Finish(Poll::Pending)
            },
        }
    }

    /// Reports the status that one engine handshake step returned. A final
    /// outcome ends the attempt; when the engine would block, the attempt
    /// ends unless an operation was registered during the step, which is then
    /// resumed.
    pub fn engine_stepped(&mut self, status: i32, slot: &mut ErrorSlot) -> (step: NegotiateStep<F>)
        ensures
            status >= 0 ==> step == NegotiateStep::<F>::Finish(Poll::Ready(Ok(())))
                && final(self)@ == old(self)@ && *final(slot) == *old(slot),
            status < 0 ==> *final(slot) == cleared(*old(slot)),
            status < 0 && kind_of_code(old(slot).code) != ErrorType::Blocked ==> step
                == NegotiateStep::<F>::Finish(Poll::Ready(Err(captured(*old(slot)))))
                && final(self)@ == old(self)@,
            status < 0 && kind_of_code(old(slot).code) == ErrorType::Blocked
                && old(self)@.async_callback is None ==> step == NegotiateStep::<F>::Finish(
                Poll::Pending,
            ) && final(self)@ == old(self)@,
            status < 0 && kind_of_code(old(slot).code) == ErrorType::Blocked
                && old(self)@.async_callback is Some ==> step == old(self)@.resume_step()
                && final(self)@ == old(self)@.without_callback(),
            old(self)@.keeps_initialized(final(self)@),
    {
        let r = status.into_result(slot);
        match poll_of(r) {
            Poll::Ready(Ok(_)) => NegotiateStep::Finish(Poll::Ready(Ok(()))),
            Poll::Ready(Err(e)) => NegotiateStep::Finish(Poll::Ready(Err(e))),
            Poll::Pending => if self.async_callback.is_some() {
                self.next_negotiate_step()
            } else {
                NegotiateStep::Finish(Poll::Pending)
            },
        }
    }
}

/// The length of a buffer as the engine takes it: a length that does not fit
/// the engine's signed size is invalid input and never reaches the engine.
pub fn engine_len(len: usize) -> (r: Result<isize, Error>)
    ensures
        len <= isize::MAX ==> r == Ok::<isize, Error>(len as isize),
        len > isize::MAX ==> r == Err::<isize, Error>(Error(ErrorContext::InvalidInput)),
{
    if len <= isize::MAX as usize {
        Ok(len as isize)
    } else {
        Err(Error::invalid_input())
    }
}

/// The signal for the byte count that one engine send or receive step
/// returned. Fewer bytes than asked for is progress, not an error; zero bytes
/// received means that the peer closed the connection in order.
pub fn transfer_polled(raw: isize, slot: &mut ErrorSlot) -> (p: Poll<Result<usize, Error>>)
    ensures
        raw >= 0 ==> p == Poll::Ready(Ok::<usize, Error>(raw as usize)) && *final(slot)
            == *old(slot),
        raw < 0 ==> p == poll_spec(Err::<usize, Error>(captured(*old(slot)))) && *final(slot)
            == cleared(*old(slot)),
{
    poll_of(raw.into_result(slot))
}

/// The signal of one engine shutdown step.
pub fn shutdown_polled(status: i32, slot: &mut ErrorSlot) -> (p: Poll<Result<(), Error>>)
    ensures
        status >= 0 ==> p == Poll::Ready(Ok::<(), Error>(())) && *final(slot) == *old(slot),
        status < 0 ==> p == poll_spec(Err::<(), Error>(captured(*old(slot)))) && *final(slot)
            == cleared(*old(slot)),
{
    match poll_of(status.into_result(slot)) {
        Poll::Ready(Ok(_)) => Poll::Ready(Ok(())),
        Poll::Ready(Err(e)) => Poll::Ready(Err(e)),
        Poll::Pending => Poll::Pending,
    }
}

/// The remaining blinding delay in nanoseconds, from the engine's raw report.
/// The delay is bounded far below `u64::MAX`, which signals a failure.
pub fn blinding_delay(raw: u64, slot: &mut ErrorSlot) -> (r: Result<u64, Error>)
    ensures
        raw != u64::MAX ==> r == Ok::<u64, Error>(raw) && *final(slot) == *old(slot),
        raw == u64::MAX ==> r == Err::<u64, Error>(captured(*old(slot))) && *final(slot)
            == cleared(*old(slot)),
{
    raw.into_result(slot)
}

/// Decides, from the engine's raw report of the remaining blinding delay,
/// whether a shutdown attempt may reach the engine (`None`). While the delay
/// lasts the attempt suspends without touching the engine; a failure to read
/// the delay ends the attempt.
pub fn shutdown_gate(raw_delay: u64, slot: &mut ErrorSlot) -> (r: Option<Poll<Result<(), Error>>>)
    ensures
        raw_delay == 0 ==> r is None && *final(slot) == *old(slot),
        raw_delay != 0 && raw_delay != u64::MAX ==> r == Some(Poll::<Result<(), Error>>::Pending)
            && *final(slot) == *old(slot),
        raw_delay == u64::MAX ==> r == Some(Poll::Ready(Err::<(), Error>(captured(*old(slot)))))
            && *final(slot) == cleared(*old(slot)),
{
    match blinding_delay(raw_delay, slot) {
        Err(e) => Some(Poll::Ready(Err(e))),
        Ok(nanos) => if nanos != 0 {
            Some(Poll::Pending)
        } else {
            None
        },
    }
}

/// A length as the engine takes it in its 32-bit length parameters; a longer
/// one is invalid input.
pub fn engine_len_u32(len: usize) -> (r: Result<u32, Error>)
    ensures
        len <= u32::MAX ==> r == Ok::<u32, Error>(len as u32),
        len > u32::MAX ==> r == Err::<u32, Error>(Error(ErrorContext::InvalidInput)),
{
    if len <= u32::MAX as usize {
        Ok(len as u32)
    } else {
        Err(Error::invalid_input())
    }
}

/// A length as the engine takes it in its 8-bit length parameters, such as
/// that of an application protocol name; a longer one is invalid input.
pub fn engine_len_u8(len: usize) -> (r: Result<u8, Error>)
    ensures
        len <= u8::MAX ==> r == Ok::<u8, Error>(len as u8),
        len > u8::MAX ==> r == Err::<u8, Error>(Error(ErrorContext::InvalidInput)),
{
    if len <= u8::MAX as usize {
        Ok(len as u8)
    } else {
        Err(Error::invalid_input())
    }
}

/// The alert code from the engine's raw report, if there is one; a failure to
/// report one still takes the engine's pending error.
pub fn alert_of(raw: i32, slot: &mut ErrorSlot) -> (r: Option<u8>)
    ensures
        raw >= 0 ==> r == Some(raw as u8) && *final(slot) == *old(slot),
        raw < 0 ==> r is None && *final(slot) == cleared(*old(slot)),
{
    match raw.into_result(slot) {
        Ok(alert) => Some(alert as u8),
        Err(_) => None,
    }
}

/// A length that the engine reports as a status code: negative on failure.
pub fn reported_len(raw: i32, slot: &mut ErrorSlot) -> (r: Result<usize, Error>)
    ensures
        raw >= 0 ==> r == Ok::<usize, Error>(raw as usize) && *final(slot) == *old(slot),
        raw < 0 ==> r == Err::<usize, Error>(captured(*old(slot))) && *final(slot) == cleared(
            *old(slot),
        ),
{
    match raw.into_result(slot) {
        Ok(len) => Ok(len as usize),
        Err(e) => Err(e),
    }
}

/// Checks that an output buffer can take the whole session ticket.
pub fn check_ticket_fits(output_len: usize, ticket_len: usize) -> (r: Result<(), Error>)
    ensures
        output_len >= ticket_len ==> r is Ok,
        output_len < ticket_len ==> r == Err::<(), Error>(Error(ErrorContext::InvalidInput)),
{
    if output_len < ticket_len {
        Err(Error::invalid_input())
    } else {
        Ok(())
    }
}

/// The signature algorithm that the peer's certificate was verified with;
/// the anonymous number means that there was none.
pub fn optional_signature_algorithm(raw: u32) -> (r: Result<Option<SignatureAlgorithm>, Error>)
    ensures
        raw == SIGNATURE_ANONYMOUS ==> r == Ok::<Option<SignatureAlgorithm>, Error>(None),
        raw != SIGNATURE_ANONYMOUS ==> r == (match signature_algorithm_result(raw) {
            Ok(a) => Ok(Some(a)),
            Err(e) => Err(e),
        }),
{
    if raw == SIGNATURE_ANONYMOUS {
        Ok(None)
    } else {
        match SignatureAlgorithm::try_from(raw) {
            Ok(a) => Ok(Some(a)),
            Err(e) => Err(e),
        }
    }
}

/// The hash algorithm that the peer's certificate was verified with; the
/// "none" number means that there was none.
pub fn optional_hash_algorithm(raw: u32) -> (r: Result<Option<HashAlgorithm>, Error>)
    ensures
        raw == HASH_NONE ==> r == Ok::<Option<HashAlgorithm>, Error>(None),
        raw != HASH_NONE ==> r == (match hash_algorithm_result(raw) {
            Ok(a) => Ok(Some(a)),
            Err(e) => Err(e),
        }),
{
    if raw == HASH_NONE {
        Ok(None)
    } else {
        match HashAlgorithm::try_from(raw) {
            Ok(a) => Ok(Some(a)),
            Err(e) => Err(e),
        }
    }
}

/// A run of operations on one connection's state between two wipes, as the
/// operations' contracts describe each step: `begins[i]` tells whether the
/// `i`-th operation was `begin_negotiate`, which leaves `after_begin()`;
/// every other operation but `wipe` ensures `keeps_initialized`.
pub open spec fn is_run_between_wipes<W, F>(
    states: Seq<ContextState<W, F>>,
    begins: Seq<bool>,
) -> bool {
    &&& states.len() == begins.len() + 1
    &&& forall|i: int|
        0 <= i < begins.len() ==> (if begins[i] {
            #[trigger] states[i + 1] == states[i].after_begin()
        } else {
            states[i].keeps_initialized(states[i + 1])
        })
}

/// The `i`-th operation of a run is `begin_negotiate` and returns `true`:
/// the one-time initializer is invoked.
pub open spec fn initializer_runs_at<W, F>(
    states: Seq<ContextState<W, F>>,
    begins: Seq<bool>,
    i: int,
) -> bool {
    begins[i] && states[i].initializer_due()
}

proof fn lemma_initialized_stays<W, F>(
    states: Seq<ContextState<W, F>>,
    begins: Seq<bool>,
    from: int,
    to: int,
)
    requires
        is_run_between_wipes(states, begins),
        0 <= from <= to < states.len(),
        states[from].connection_initialized,
    ensures
        states[to].connection_initialized,
    decreases to - from,
{
    if from < to {
        assert(states[from + 1].connection_initialized) by {
            if begins[from] {
                assert(states[from + 1] == states[from].after_begin());
            }
        }
        lemma_initialized_stays(states, begins, from + 1, to);
    }
}

/// Across any number of negotiate attempts and other operations between two
/// wipes, the one-time initializer is invoked at most once.
pub proof fn lemma_initializer_at_most_once<W, F>(
    states: Seq<ContextState<W, F>>,
    begins: Seq<bool>,
    i: int,
    j: int,
)
    requires
        is_run_between_wipes(states, begins),
        0 <= i < j < begins.len(),
    ensures
        !(initializer_runs_at(states, begins, i) && initializer_runs_at(states, begins, j)),
{
    if initializer_runs_at(states, begins, i) {
        assert(states[i + 1] == states[i].after_begin());
        lemma_initialized_stays(states, begins, i + 1, j);
    }
}

/// Registering, twice in a row, handles that wake the same task leaves the
/// state that the first registration made.
pub proof fn lemma_set_waker_idempotent<W, F>(
    c: ContextState<W, F>,
    first: W,
    second: W,
    first_wakes_same_task: bool,
)
    ensures
        c.with_waker(Some(first), first_wakes_same_task).with_waker(Some(second), true)
            == c.with_waker(Some(first), first_wakes_same_task),
{
}

} // verus!
