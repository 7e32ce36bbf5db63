//! One run of a hook, from the start of its process to the end: what to do
//! next, given what has just happened. The caller owns the process, the pipe
//! and the timer; it carries out each action and reports the event that follows.

use crate::config::Timeout;
use crate::signature::{authenticate, hmac_sha1, SIGNATURE_LEN};
use crate::status::Status;
use vstd::prelude::*;

verus! {

/// What authenticates a request body: the hook's secret and the digest that
/// the request's signature header carried.
#[derive(Debug, PartialEq, Eq)]
pub struct Verifier {
    /// The hook's secret, the key of the hash.
    pub key: Vec<u8>,
    /// The code that the body must have under the key.
    pub expected: [u8; SIGNATURE_LEN],
}

/// A verifier as byte strings.
pub struct VerifierView {
    pub key: Seq<u8>,
    pub expected: Seq<u8>,
}

impl View for Verifier {
    type V = VerifierView;

    open spec fn view(&self) -> VerifierView {
        VerifierView { key: self.key@, expected: self.expected@ }
    }
}

/// How a run came to its end.
#[derive(Clone, Copy, Debug, PartialEq, Eq, Structural)]
pub enum Ending {
    /// The program could not be executed.
    SpawnFailed,
    /// The process started without a pipe to its standard input.
    PipeUnavailable,
    /// The request body could not be read.
    BodyUnread,
    /// Writing to the pipe, or closing it, failed for a reason other than a broken pipe.
    PipeFailed,
    /// The process exited by itself.
    Exited,
    /// Waiting for the process failed.
    WaitFailed,
    /// The process outlived the timeout and was killed.
    TimedOut,
}

/// Why a run stops once its pipe is closed, short of supervising the process.
#[derive(Clone, Copy, Debug, PartialEq, Eq, Structural)]
pub enum Fault {
    /// The request body could not be read.
    BodyUnread,
    /// Writing to the pipe failed for a reason other than a broken pipe.
    PipeFailed,
}

impl Fault {
    /// The ending that this fault leads to.
    pub open spec fn ending(self) -> Ending {
        match self {
            Fault::BodyUnread => Ending::BodyUnread,
            Fault::PipeFailed => Ending::PipeFailed,
        }
    }

    /// The ending that this fault leads to.
    pub fn to_ending(self) -> (ending: Ending)
        ensures
            ending == self.ending(),
    {
        match self {
            Fault::BodyUnread => Ending::BodyUnread,
            Fault::PipeFailed => Ending::PipeFailed,
        }
    }
}

/// Where a run stands.
#[derive(Clone, Copy, Debug, PartialEq, Eq, Structural)]
pub enum Phase {
    /// The process is about to be started.
    Spawning,
    /// The process runs, its pipe is open, and the request body is being collected.
    Reading,
    /// The body is being written into the pipe.
    Writing,
    /// The pipe is being closed. With a fault, the run stops once the pipe
    /// is closed; without one, the process is then supervised.
    Closing(Option<Fault>),
    /// The pipe is closed and the process is waited for, within the timeout.
    Waiting,
    /// The process was sent the kill signal and is waited for, to reap it.
    Reaping,
    /// The run is over.
    Done(Ending),
}

/// How an operation on the pipe went.
#[derive(Clone, Copy, Debug, PartialEq, Eq, Structural)]
pub enum PipeResult {
    /// It succeeded.
    Done,
    /// It failed because the process no longer reads: the process exited
    /// early, which is no fault.
    BrokenPipe,
    /// It failed for another reason.
    Failed,
}

/// What waiting for the process gave.
#[derive(Clone, Copy, Debug, PartialEq, Eq, Structural)]
pub enum Wait {
    /// The process has exited.
    Exited,
    /// The wait itself failed.
    Failed,
}

/// What has just happened to a run.
#[derive(Debug, PartialEq, Eq)]
pub enum Event {
    /// The process was started, with a pipe to its standard input.
    Spawned,
    /// The program could not be executed.
    SpawnFailed,
    /// The process was started, but no pipe to its standard input was had.
    PipeUnavailable,
    /// The whole request body has arrived: these are its bytes.
    BodyRead(Vec<u8>),
    /// Reading the request body failed.
    BodyFailed,
    /// The write into the pipe has ended.
    Written(PipeResult),
    /// The closing of the pipe has ended.
    Closed(PipeResult),
    /// The wait has ended: `exit` tells whether the process is known to have
    /// exited, `expired` whether the timer has run out. Both may hold at once.
    Woken { exit: Option<Wait>, expired: bool },
}

/// An event, with a body as a byte string.
pub enum EventView {
    Spawned,
    SpawnFailed,
    PipeUnavailable,
    BodyRead(Seq<u8>),
    BodyFailed,
    Written(PipeResult),
    Closed(PipeResult),
    Woken { exit: Option<Wait>, expired: bool },
}

impl View for Event {
    type V = EventView;

    open spec fn view(&self) -> EventView {
        match *self {
            Event::Spawned => EventView::Spawned,
            Event::SpawnFailed => EventView::SpawnFailed,
            Event::PipeUnavailable => EventView::PipeUnavailable,
            Event::BodyRead(body) => EventView::BodyRead(body@),
            Event::BodyFailed => EventView::BodyFailed,
            Event::Written(result) => EventView::Written(result),
            Event::Closed(result) => EventView::Closed(result),
            Event::Woken { exit, expired } => EventView::Woken { exit, expired },
        }
    }
}

/// What the caller is to do next.
#[derive(Debug, PartialEq, Eq)]
pub enum Action {
    /// Collect the whole request body, then report it.
    ReadBody,
    /// Write these bytes into the pipe, in this order, then report how it went.
    Write(Vec<u8>),
    /// Shut the pipe down and drop it, then report how it went.
    ClosePipe,
    /// Wait for the process to exit; with a limit, for at most that many
    /// seconds. Report what was observed.
    Await { limit: Option<u64> },
    /// Send the process the kill signal, then wait for it without a limit
    /// and report what was observed.
    Kill,
    /// Nothing is left to do: the run is over.
    Finish,
    /// The event does not belong to the phase the run is in: nothing changes.
    Disregard,
}

/// An action, with the bytes to write as a byte string.
pub enum ActionView {
    ReadBody,
    Write(Seq<u8>),
    ClosePipe,
    Await { limit: Option<u64> },
    Kill,
    Finish,
    Disregard,
}

impl View for Action {
    type V = ActionView;

    open spec fn view(&self) -> ActionView {
        match *self {
            Action::ReadBody => ActionView::ReadBody,
            Action::Write(bytes) => ActionView::Write(bytes@),
            Action::ClosePipe => ActionView::ClosePipe,
            Action::Await { limit } => ActionView::Await { limit },
            Action::Kill => ActionView::Kill,
            Action::Finish => ActionView::Finish,
            Action::Disregard => ActionView::Disregard,
        }
    }
}

/// The state of one run.
#[derive(Debug, PartialEq, Eq)]
pub struct HookRun {
    /// Where the run stands.
    pub phase: Phase,
    /// What the body is checked against, where the hook has a secret.
    pub verifier: Option<Verifier>,
    /// How long the process may run once its pipe is closed.
    pub timeout: Timeout,
}

/// The state of a run, as mathematical values.
pub struct RunView {
    pub phase: Phase,
    pub verifier: Option<VerifierView>,
    pub timeout: Timeout,
}

impl View for HookRun {
    type V = RunView;

    open spec fn view(&self) -> RunView {
        RunView {
            phase: self.phase,
            verifier: match self.verifier {
                Some(v) => Some(v@),
                None => None,
            },
            timeout: self.timeout,
        }
    }
}

/// One step of a run: its new state, the status to answer the request with
/// if this step settles it, and what to do next.
#[derive(Debug, PartialEq, Eq)]
pub struct Step {
    pub run: HookRun,
    pub reply: Option<Status>,
    pub action: Action,
}

/// A step, as mathematical values.
pub struct StepView {
    pub run: RunView,
    pub reply: Option<Status>,
    pub action: ActionView,
}

impl View for Step {
    type V = StepView;

    open spec fn view(&self) -> StepView {
        StepView { run: self.run@, reply: self.reply, action: self.action@ }
    }
}

/// Whether a body may be forwarded: always where no verifier is set, and
/// else where the body's code under the key is the expected one.
pub open spec fn passes(verifier: Option<VerifierView>, body: Seq<u8>) -> bool {
    match verifier {
        None => true,
        Some(v) => hmac_sha1(v.key, body) == v.expected,
    }
}

/// The limit that a wait under `timeout` has: none where it is unlimited.
pub open spec fn limit_of(timeout: Timeout) -> Option<u64> {
    if timeout.unlimited() {
        None
    } else {
        Some(timeout.secs)
    }
}

/// The step that moves `run` to `phase` and asks for `action`.
pub open spec fn moved(run: RunView, phase: Phase, action: ActionView) -> StepView {
    StepView {
        run: RunView { phase, verifier: run.verifier, timeout: run.timeout },
        reply: None,
        action,
    }
}

/// The step that settles the request with `status` on the way to `phase`.
pub open spec fn answered(run: RunView, phase: Phase, status: Status, action: ActionView)
    -> StepView {
    StepView {
        run: RunView { phase, verifier: run.verifier, timeout: run.timeout },
        reply: Some(status),
        action,
    }
}

/// The step that follows the arrival of the whole body, given whether it
/// may be forwarded. A body that may is written as it is; one that may not
/// has the pipe closed without a byte written, and the process is still
/// supervised.
pub open spec fn next_on_body(run: RunView, body: Seq<u8>, passed: bool) -> StepView {
    if run.phase != Phase::Reading {
        moved(run, run.phase, ActionView::Disregard)
    } else if passed {
        moved(run, Phase::Writing, ActionView::Write(body))
    } else {
        moved(run, Phase::Closing(None), ActionView::ClosePipe)
    }
}

/// The step that follows a wake-up during supervision. An exit that was
/// observed ends the run, whether or not the timer has run out as well; the
/// timer alone leads to a kill, and only under a timeout that is not zero.
pub open spec fn next_on_wake(run: RunView, exit: Option<Wait>, expired: bool) -> StepView {
    match exit {
        Some(Wait::Exited) => moved(run, Phase::Done(Ending::Exited), ActionView::Finish),
        Some(Wait::Failed) => moved(run, Phase::Done(Ending::WaitFailed), ActionView::Finish),
        None => if expired && !run.timeout.unlimited() {
            moved(run, Phase::Reaping, ActionView::Kill)
        } else {
            moved(run, Phase::Waiting, ActionView::Await { limit: limit_of(run.timeout) })
        },
    }
}

/// The step that `event` causes in `run`.
pub open spec fn next(run: RunView, event: EventView) -> StepView {
    match (run.phase, event) {
        (Phase::Spawning, EventView::Spawned) => answered(
            run,
            Phase::Reading,
            Status::Success,
            ActionView::ReadBody,
        ),
        (Phase::Spawning, EventView::SpawnFailed) => answered(
            run,
            Phase::Done(Ending::SpawnFailed),
            Status::InternalServerError,
            ActionView::Finish,
        ),
        (Phase::Spawning, EventView::PipeUnavailable) => answered(
            run,
            Phase::Done(Ending::PipeUnavailable),
            Status::InternalServerError,
            ActionView::Finish,
        ),
        (Phase::Reading, EventView::BodyRead(body)) => next_on_body(
            run,
            body,
            passes(run.verifier, body),
        ),
        (Phase::Reading, EventView::BodyFailed) => moved(
            run,
            Phase::Closing(Some(Fault::BodyUnread)),
            ActionView::ClosePipe,
        ),
        (Phase::Writing, EventView::Written(PipeResult::Failed)) => moved(
            run,
            Phase::Closing(Some(Fault::PipeFailed)),
            ActionView::ClosePipe,
        ),
        (Phase::Writing, EventView::Written(_)) => moved(
            run,
            Phase::Closing(None),
            ActionView::ClosePipe,
        ),
        (Phase::Closing(Some(fault)), EventView::Closed(_)) => moved(
            run,
            Phase::Done(fault.ending()),
            ActionView::Finish,
        ),
        (Phase::Closing(None), EventView::Closed(PipeResult::Failed)) => moved(
            run,
            Phase::Done(Ending::PipeFailed),
            ActionView::Finish,
        ),
        (Phase::Closing(None), EventView::Closed(_)) => moved(
            run,
            Phase::Waiting,
            ActionView::Await { limit: limit_of(run.timeout) },
        ),
        (Phase::Waiting, EventView::Woken { exit, expired }) => next_on_wake(run, exit, expired),
        (Phase::Reaping, EventView::Woken { exit: Some(_), expired: _ }) => moved(
            run,
            Phase::Done(Ending::TimedOut),
            ActionView::Finish,
        ),
        (Phase::Reaping, EventView::Woken { exit: None, expired: _ }) => moved(
            run,
            Phase::Reaping,
            ActionView::Await { limit: None },
        ),
        _ => moved(run, run.phase, ActionView::Disregard),
    }
}

impl HookRun {
    /// A run that is about to start its process.
    pub fn new(verifier: Option<Verifier>, timeout: Timeout) -> (run: HookRun)
        ensures
            run.phase == Phase::Spawning,
            run.verifier == verifier,
            run.timeout == timeout,
    {
        HookRun { phase: Phase::Spawning, verifier, timeout }
    }

    /// The limit of a wait under this run's timeout.
    pub fn limit(&self) -> (limit: Option<u64>)
        ensures
            limit == limit_of(self.timeout),
    {
        if self.timeout.is_unlimited() {
            None
        } else {
            Some(self.timeout.as_secs())
        }
    }

    fn go(self, phase: Phase, action: Action) -> (step: Step)
        ensures
            step@ == moved(self@, phase, action@),
    {
        Step {
            run: HookRun { phase, verifier: self.verifier, timeout: self.timeout },
            reply: None,
            action,
        }
    }

    fn answer(self, phase: Phase, status: Status, action: Action) -> (step: Step)
        ensures
            step@ == answered(self@, phase, status, action@),
    {
        Step {
            run: HookRun { phase, verifier: self.verifier, timeout: self.timeout },
            reply: Some(status),
            action,
        }
    }

    fn disregard(self) -> (step: Step)
        ensures
            step@ == moved(self@, self@.phase, ActionView::Disregard),
    {
        let phase = self.phase;
        self.go(phase, Action::Disregard)
    }

    /// Whether `body` may be forwarded to the process: it may where the
    /// hook has no secret, and else where its HMAC-SHA1 code under the
    /// secret is the digest that the request carried.
    pub fn check_body(&self, body: &[u8]) -> (passed: bool)
        ensures
            passed == passes(self@.verifier, body@),
    {
        match &self.verifier {
            None => true,
            Some(verifier) => authenticate(verifier.key.as_slice(), body, &verifier.expected),
        }
    }

    /// The step after the whole body has arrived, given whether it may be
    /// forwarded.
    pub fn body_arrived(self, body: Vec<u8>, passed: bool) -> (step: Step)
        ensures
            step@ == next_on_body(self@, body@, passed),
    {
        match self.phase {
            Phase::Reading => if passed {
                self.go(Phase::Writing, Action::Write(body))
            } else {
                self.go(Phase::Closing(None), Action::ClosePipe)
            },
            _ => self.disregard(),
        }
    }

    /// The step after a wake-up during supervision.
    pub fn woken(self, exit: Option<Wait>, expired: bool) -> (step: Step)
        ensures
            step@ == next_on_wake(self@, exit, expired),
    {
        match exit {
            Some(Wait::Exited) => self.go(Phase::Done(Ending::Exited), Action::Finish),
            Some(Wait::Failed) => self.go(Phase::Done(Ending::WaitFailed), Action::Finish),
            None => if expired && !self.timeout.is_unlimited() {
                self.go(Phase::Reaping, Action::Kill)
            } else {
                let limit = self.limit();
                self.go(Phase::Waiting, Action::Await { limit })
            },
        }
    }

    /// Takes the run one step further: the new state, the status to answer
    /// with if the step settles the request, and what to do next.
    pub fn step(self, event: Event) -> (step: Step)
        ensures
            step@ == next(self@, event@),
    {
        match (self.phase, event) {
            (Phase::Spawning, Event::Spawned) => self.answer(
                Phase::Reading,
                Status::Success,
                Action::ReadBody,
            ),
            (Phase::Spawning, Event::SpawnFailed) => self.answer(
                Phase::Done(Ending::SpawnFailed),
                Status::InternalServerError,
                Action::Finish,
            ),
            (Phase::Spawning, Event::PipeUnavailable) => self.answer(
                Phase::Done(Ending::PipeUnavailable),
                Status::InternalServerError,
                Action::Finish,
            ),
            (Phase::Reading, Event::BodyRead(body)) => {
                let passed = self.check_body(body.as_slice());
                self.body_arrived(body, passed)
            },
            (Phase::Reading, Event::BodyFailed) => self.go(
                Phase::Closing(Some(Fault::BodyUnread)),
                Action::ClosePipe,
            ),
            (Phase::Writing, Event::Written(PipeResult::Failed)) => self.go(
                Phase::Closing(Some(Fault::PipeFailed)),
                Action::ClosePipe,
            ),
            (Phase::Writing, Event::Written(_)) => self.go(Phase::Closing(None), Action::ClosePipe),
            (Phase::Closing(Some(fault)), Event::Closed(_)) => self.go(
                Phase::Done(fault.to_ending()),
                Action::Finish,
            ),
            (Phase::Closing(None), Event::Closed(PipeResult::Failed)) => self.go(
                Phase::Done(Ending::PipeFailed),
                Action::Finish,
            ),
            (Phase::Closing(None), Event::Closed(_)) => {
                let limit = self.limit();
                self.go(Phase::Waiting, Action::Await { limit })
            },
            (Phase::Waiting, Event::Woken { exit, expired }) => self.woken(exit, expired),
            (Phase::Reaping, Event::Woken { exit: Some(_), expired: _ }) => self.go(
                Phase::Done(Ending::TimedOut),
                Action::Finish,
            ),
            (Phase::Reaping, Event::Woken { exit: None, expired: _ }) => self.go(
                Phase::Reaping,
                Action::Await { limit: None },
            ),
            _ => self.disregard(),
        }
    }
}

} // verus!
