//! The attempt / suspend / retry protocol of one socket operation.
//!
//! A non-blocking kernel call either finishes (with a value or an error) or
//! reports that it would block. The protocol turns that into two phases: an
//! operation is *attempting*, and the driver makes the kernel call and reports
//! the outcome; or it is *waiting*, registered for readiness of its direction,
//! and nothing is called until the driver reports a wake. A would-block
//! outcome never leaves the protocol: it only ever causes a suspension.

use vstd::prelude::*;
use crate::error::IoError;
use crate::request::{Call, Request};

verus! {

/// The readiness that a suspended operation waits for.
#[derive(Clone, Copy, Debug, PartialEq, Eq, Structural)]
pub enum Direction {
    /// Data can be received.
    Read,
    /// Data can be sent.
    Write,
}

/// Where an operation stands.
#[derive(Clone, Copy, Debug, PartialEq, Eq, Structural)]
pub enum Phase {
    /// The next thing to happen is one kernel call.
    Attempting,
    /// Registered for readiness; no kernel call until a wake.
    Waiting,
    /// Completed or cancelled; nothing more happens.
    Finished,
}

/// What the facade does with the outcome of one attempt.
#[derive(Debug, PartialEq, Eq)]
pub enum Step<T> {
    /// The operation is over, with this result.
    Complete(Result<T, IoError>),
    /// The caller is to be registered for this readiness and suspended.
    Suspend(Direction),
}

/// Whether an outcome says that the call has to be tried again later.
pub open spec fn blocked<T>(outcome: Result<T, IoError>) -> bool {
    match outcome {
        Ok(_) => false,
        Err(e) => e.would_block(),
    }
}

/// The step that follows an attempt in direction `direction`: a suspension on
/// would-block, and otherwise completion with the outcome exactly as it came.
pub open spec fn step_for<T>(direction: Direction, outcome: Result<T, IoError>) -> Step<T> {
    if blocked(outcome) {
        Step::Suspend(direction)
    } else {
        Step::Complete(outcome)
    }
}

/// The abstract state of an operation.
pub struct State {
    /// The kernel call that each attempt makes.
    pub call: Call,
    /// The readiness that the operation waits for when it is suspended.
    pub direction: Direction,
    /// Where the operation stands.
    pub phase: Phase,
}

impl State {
    /// Whether the operation waits for the readiness that belongs to its
    /// call: read for a receive, write for a send.
    pub open spec fn consistent(self) -> bool {
        self.call.direction() == Some(self.direction)
    }
}

/// The state of an operation that has just been started.
pub open spec fn started(call: Call, direction: Direction) -> State {
    State { call, direction, phase: Phase::Attempting }
}

/// The state after a wake: a waiting operation attempts again, any other is
/// left as it is.
pub open spec fn woken(s: State) -> State {
    if s.phase == Phase::Waiting {
        State { phase: Phase::Attempting, ..s }
    } else {
        s
    }
}

/// The state after an attempt with the given outcome.
pub open spec fn settled<T>(s: State, outcome: Result<T, IoError>) -> State {
    State {
        phase: if blocked(outcome) {
            Phase::Waiting
        } else {
            Phase::Finished
        },
        ..s
    }
}

/// The state after a cancellation.
pub open spec fn cancelled(s: State) -> State {
    State { phase: Phase::Finished, ..s }
}

/// One send or receive in flight.
#[derive(Debug)]
pub struct Operation {
    request: Request,
    direction: Direction,
    phase: Phase,
}

impl View for Operation {
    type V = State;

    closed spec fn view(&self) -> State {
        State { call: self.request@, direction: self.direction, phase: self.phase }
    }
}

impl Operation {
    /// Starts an operation that makes `request` on each attempt and waits for
    /// `direction` in between. Its first attempt is due at once.
    pub(crate) fn new(request: Request, direction: Direction) -> (op: Operation)
        requires
            request@.direction() == Some(direction),
        ensures
            op@ == started(request@, direction),
    {
        Operation { request, direction, phase: Phase::Attempting }
    }

    /// The kernel call that each attempt makes.
    pub fn request(&self) -> (r: &Request)
        ensures
            r@ == self@.call,
    {
        &self.request
    }

    /// The readiness that the operation waits for when it is suspended.
    pub fn direction(&self) -> (d: Direction)
        ensures
            d == self@.direction,
    {
        self.direction
    }

    /// Where the operation stands.
    pub fn phase(&self) -> (p: Phase)
        ensures
            p == self@.phase,
    {
        self.phase
    }

    /// Takes the outcome of the attempt that was due.
    ///
    /// On would-block the operation becomes waiting and the caller is to be
    /// suspended on the operation's direction. On every other outcome, success
    /// or failure, the operation is finished and completes with that outcome
    /// unchanged. A would-block error is therefore never part of a completion.
    pub fn on_outcome<T>(&mut self, outcome: Result<T, IoError>) -> (step: Step<T>)
        requires
            old(self)@.phase == Phase::Attempting,
        ensures
            step == step_for(old(self)@.direction, outcome),
            final(self)@ == settled(old(self)@, outcome),
    {
        let suspend = match &outcome {
            Ok(_) => false,
            Err(e) => e.is_would_block(),
        };
        if suspend {
            self.phase = Phase::Waiting;
            Step::Suspend(self.direction)
        } else {
            self.phase = Phase::Finished;
            Step::Complete(outcome)
        }
    }

    /// Takes a wake. Returns whether an attempt is now due: a waiting
    /// operation attempts again, exactly once; a wake that finds the operation
    /// in another phase changes nothing.
    pub fn on_wake(&mut self) -> (due: bool)
        ensures
            final(self)@ == woken(old(self)@),
            due == (final(self)@.phase == Phase::Attempting),
    {
        match self.phase {
            Phase::Waiting => {
                self.phase = Phase::Attempting;
                true
            },
            Phase::Attempting => true,
            Phase::Finished => false,
        }
    }

    /// Gives the operation up. Returns the readiness registration that has to
    /// be removed: the operation's direction if it was waiting, none otherwise.
    pub fn cancel(&mut self) -> (registered: Option<Direction>)
        ensures
            final(self)@ == cancelled(old(self)@),
            registered == if old(self)@.phase == Phase::Waiting {
                Some(old(self)@.direction)
            } else {
                None
            },
    {
        let registered = match self.phase {
            Phase::Waiting => Some(self.direction),
            _ => None,
        };
        self.phase = Phase::Finished;
        registered
    }
}


/// The state of an operation, and the steps it has yielded, after the driver
/// has played `trace` on it from state `s`: one outcome per attempt, in order,
/// with a wake before each attempt, up to the first outcome that completes the
/// operation. Outcomes after that one are never asked for.
pub open spec fn played<T>(s: State, trace: Seq<Result<T, IoError>>) -> (State, Seq<Step<T>>)
    decreases trace.len(),
{
    if trace.len() == 0 {
        (s, Seq::empty())
    } else {
        let next = settled(woken(s), trace[0]);
        let step = step_for(s.direction, trace[0]);
        if blocked(trace[0]) {
            let rest = played(next, trace.skip(1));
            (rest.0, seq![step] + rest.1)
        } else {
            (next, seq![step])
        }
    }
}

/// How many outcomes at the front of `trace` are would-block.
pub open spec fn leading_blocked<T>(trace: Seq<Result<T, IoError>>) -> nat
    decreases trace.len(),
{
    if trace.len() == 0 || !blocked(trace[0]) {
        0
    } else {
        1 + leading_blocked(trace.skip(1))
    }
}

/// `leading_blocked` counts exactly the would-block outcomes that come before
/// the first outcome of another sort.
pub proof fn lemma_leading_blocked<T>(trace: Seq<Result<T, IoError>>)
    ensures
        leading_blocked(trace) <= trace.len(),
        forall|i: int| 0 <= i < leading_blocked(trace) ==> blocked(#[trigger] trace[i]),
        leading_blocked(trace) < trace.len() ==> !blocked(trace[leading_blocked(trace) as int]),
    decreases trace.len(),
{
    if trace.len() != 0 && blocked(trace[0]) {
        let rest = trace.skip(1);
        lemma_leading_blocked(rest);
        assert forall|i: int| 0 <= i < leading_blocked(trace) implies blocked(#[trigger] trace[i]) by {
            if i > 0 {
                assert(trace[i] == rest[i - 1]);
            }
        }
        if leading_blocked(trace) < trace.len() {
            assert(trace[leading_blocked(trace) as int] == rest[leading_blocked(rest) as int]);
        }
    }
}

/// What an operation yields over a run of attempts, from its start.
///
/// Every would-block outcome yields one suspension on the operation's
/// direction, and nothing else does. The first outcome that is not would-block
/// yields the completion, with that outcome unchanged, and ends the run. So the
/// operation is suspended exactly once for each would-block before its
/// completion, it never completes with would-block, and while all outcomes
/// have been would-block it is waiting.
pub proof fn lemma_completes_with_first_final<T>(
    call: Call,
    direction: Direction,
    trace: Seq<Result<T, IoError>>,
)
    ensures
        ({
            let n = leading_blocked(trace) as int;
            let (end, steps) = played(started(call, direction), trace);
            &&& n <= trace.len()
            &&& forall|i: int| 0 <= i < n ==> #[trigger] steps[i] == Step::<T>::Suspend(direction)
            &&& n < trace.len() ==> {
                &&& steps.len() == n + 1
                &&& steps[n] == Step::Complete(trace[n])
                &&& !blocked(trace[n])
                &&& end == State { call, direction, phase: Phase::Finished }
            }
            &&& n == trace.len() ==> steps.len() == n
            &&& n == trace.len() && n > 0 ==> end == State { call, direction, phase: Phase::Waiting }
            &&& trace.len() == 0 ==> end == started(call, direction)
        }),
{
    lemma_played_from(started(call, direction), trace);
}

/// The same, from any state.
proof fn lemma_played_from<T>(s: State, trace: Seq<Result<T, IoError>>)
    ensures
        ({
            let n = leading_blocked(trace) as int;
            let (end, steps) = played(s, trace);
            &&& n <= trace.len()
            &&& forall|i: int| 0 <= i < n ==> #[trigger] steps[i] == Step::<T>::Suspend(s.direction)
            &&& n < trace.len() ==> {
                &&& steps.len() == n + 1
                &&& steps[n] == Step::Complete(trace[n])
                &&& !blocked(trace[n])
                &&& end == State { phase: Phase::Finished, ..s }
            }
            &&& n == trace.len() ==> steps.len() == n
            &&& n == trace.len() && n > 0 ==> end == State { phase: Phase::Waiting, ..s }
            &&& trace.len() == 0 ==> end == s
        }),
    decreases trace.len(),
{
    lemma_leading_blocked(trace);
    if trace.len() != 0 && blocked(trace[0]) {
        let rest = trace.skip(1);
        let next = settled(woken(s), trace[0]);
        lemma_played_from(next, rest);
        lemma_leading_blocked(rest);
        let n = leading_blocked(trace) as int;
        let (end, steps) = played(s, trace);
        let tail = played(next, rest).1;
        assert(steps == seq![step_for(s.direction, trace[0])] + tail);
        assert forall|i: int| 0 <= i < n implies #[trigger] steps[i] == Step::<T>::Suspend(
            s.direction,
        ) by {
            if i > 0 {
                assert(steps[i] == tail[i - 1]);
            }
        }
        if n < trace.len() {
            assert(trace[n] == rest[n - 1]);
            assert(steps[n] == tail[n - 1]);
        }
    }
}

/// An operation whose first attempt fails with anything but would-block is
/// over at once, with that error: it is never suspended, whatever the kernel
/// would have said next. So a send or receive on a direction that the kernel
/// refuses does not wait.
pub proof fn lemma_failure_ends_the_operation<T>(
    call: Call,
    direction: Direction,
    e: IoError,
    trace: Seq<Result<T, IoError>>,
)
    requires
        trace.len() > 0,
        trace[0] == Err::<T, IoError>(e),
        !e.would_block(),
    ensures
        played(started(call, direction), trace) == (
            State { call, direction, phase: Phase::Finished },
            seq![Step::Complete(Err::<T, IoError>(e))],
        ),
{
}

/// Between two attempts lies a wake: whatever the outcome of an attempt, the
/// operation is not attempting afterwards, and of its two other phases only
/// waiting leads back to an attempt, through a wake.
pub proof fn lemma_one_attempt_per_wake<T>(s: State, outcome: Result<T, IoError>)
    ensures
        settled(s, outcome).phase != Phase::Attempting,
        woken(settled(s, outcome)).phase == Phase::Attempting <==> blocked(outcome),
        woken(woken(s)) == woken(s),
{
}

/// Nothing that happens to an operation changes its call or the readiness it
/// waits for: an operation that is consistent stays so.
pub proof fn lemma_consistency_is_kept<T>(s: State, outcome: Result<T, IoError>)
    requires
        s.consistent(),
    ensures
        woken(s).consistent(),
        settled(s, outcome).consistent(),
        cancelled(s).consistent(),
        woken(s).call == s.call,
        settled(s, outcome).call == s.call,
        cancelled(s).call == s.call,
{
}

/// A finished operation stays finished: neither a wake nor a cancellation
/// brings it back.
pub proof fn lemma_finished_is_final(s: State)
    requires
        s.phase == Phase::Finished,
    ensures
        woken(s) == s,
        cancelled(s) == s,
{
}

} // verus!
