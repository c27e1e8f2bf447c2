//! The worker state machine that drives the submission cycle.
//!
//! The worker is the decision core of the background submission task: the
//! surrounding task owns the timers, the command channel and the HTTP client,
//! and after every awaited event it hands the worker what happened — a timer
//! tick, a command, the outcome of a request — together with whatever it
//! drained from the queue. The worker answers with the one [`Action`] to
//! perform next. Every transition is a function of the previous state and
//! the event alone, so the whole protocol is stated by [`spec_step`] and the
//! laws below hold of every run.

use vstd::multiset::Multiset;
use vstd::prelude::*;

use crate::contracts::Envelope;
use crate::schedule::RetrySchedule;
use crate::time::{add_clamped, min_instant, spec_add_clamped, spec_min_instant};
use crate::transmitter::Response;

verus! {

/// A server-dictated retry wait is clamped to this safety ceiling
/// (24 hours), counted from the instant the response was handled.
pub const THROTTLE_CEILING_MILLIS: i64 = 86_400_000;

/// A command sent to the worker through the channel façade.
#[derive(Debug, Clone, PartialEq)]
pub enum Command {
    /// Drain the queue and submit now, without waiting for the timer.
    Flush,
    /// Drain once, submit what was pending, then exit.
    Close,
    /// Exit immediately, abandoning pending items.
    Terminate,
}

/// What the worker asks the surrounding task to do next.
pub enum Action {
    /// Sleep until `deadline` (or a command arrives), then start a new cycle.
    WaitCycle { deadline: i64 },
    /// Sleep until `deadline` (or a command arrives), then resubmit the
    /// waiting batch.
    WaitRetry { deadline: i64 },
    /// Submit this batch in one HTTP request and report the outcome.
    Send { batch: Vec<Envelope> },
    /// Drain the queue once more and report what came out.
    Drain,
    /// The worker is done; stop the task.
    Exit,
}

/// The submission phase the worker stands in.
pub enum Phase {
    /// Between cycles: waiting for the timer or a command.
    Waiting,
    /// A request is in flight. `closing` records that a close was requested
    /// and the worker must drain once more when this batch is done.
    Sending { closing: bool },
    /// A transient failure was answered: `batch` is scheduled for
    /// resubmission once `deadline` passes.
    RetryWait { batch: Vec<Envelope>, deadline: i64, closing: bool },
    /// Close in progress, no request in flight: one final drain is owed.
    Draining,
    /// The one-shot submission of the final drain is in flight.
    FinalSending,
    /// Absorbing: the worker accepts no further event.
    Stopped,
}

/// The worker: its phase, its retry schedule, and the cycle interval
/// (milliseconds) between automatic drains.
pub struct Worker {
    pub phase: Phase,
    pub schedule: RetrySchedule,
    pub interval: i64,
}

/// Everything the surrounding task can report to the worker.
pub enum WorkerEvent {
    /// The cycle timer fired; `drained` is what the queue held.
    Timer { now: i64, drained: Vec<Envelope> },
    /// A `Flush` command arrived while waiting between cycles.
    Flush { now: i64, drained: Vec<Envelope> },
    /// A `Close` command arrived while waiting between cycles.
    Close { drained: Vec<Envelope> },
    /// A `Terminate` command arrived (between cycles or during a retry wait).
    Terminate,
    /// The retry deadline passed.
    RetryTimer,
    /// A `Flush` command arrived during a retry wait.
    RetryFlush,
    /// A `Close` command arrived during a retry wait.
    RetryClose,
    /// The in-flight request completed with this classification.
    Sent { response: Response, now: i64 },
    /// The final drain owed after a close produced these items.
    FinalDrain { drained: Vec<Envelope> },
}

impl Worker {
    /// The cycle interval is non-negative, the schedule is coherent, and a
    /// batch waiting for retry is never empty.
    pub open spec fn wf(&self) -> bool {
        &&& self.interval >= 0
        &&& self.schedule.wf()
        &&& (self.phase matches Phase::RetryWait { batch, .. } ==> batch@.len() > 0)
    }
}

/// The schedule with its cursor back at the first delay.
pub open spec fn spec_reset(s: RetrySchedule) -> RetrySchedule {
    RetrySchedule { delays: s.delays, index: 0 }
}

/// The schedule with one attempt used up.
pub open spec fn spec_advanced(s: RetrySchedule) -> RetrySchedule {
    RetrySchedule { delays: s.delays, index: (s.index + 1) as usize }
}

/// Whether every attempt of the schedule has been used.
pub open spec fn spec_exhausted(s: RetrySchedule) -> bool {
    s.index >= s.delays@.len()
}

/// The state and action after the current batch is disposed of (accepted,
/// dropped, or its retries exhausted): the schedule restarts, and the worker
/// either returns to the cycle wait or, when a close is in progress, asks
/// for the final drain.
pub open spec fn spec_disposed(pre: Worker, now: i64, closing: bool) -> (Worker, Action) {
    if closing {
        (
            Worker { phase: Phase::Draining, schedule: spec_reset(pre.schedule), interval: pre.interval },
            Action::Drain,
        )
    } else {
        (
            Worker { phase: Phase::Waiting, schedule: spec_reset(pre.schedule), interval: pre.interval },
            Action::WaitCycle { deadline: spec_add_clamped(now, pre.interval) },
        )
    }
}

/// The transition relation of the worker, as one deterministic function:
/// `None` where the protocol does not admit the event in the given phase.
/// Each exec transition method ensures that it computes exactly this.
pub open spec fn spec_step(pre: Worker, event: WorkerEvent) -> Option<(Worker, Action)> {
    match (pre.phase, event) {
        (Phase::Waiting, WorkerEvent::Timer { now, drained }) => Some(
            spec_cycle_outcome(pre, now, drained),
        ),
        (Phase::Waiting, WorkerEvent::Flush { now, drained }) => Some(
            spec_cycle_outcome(pre, now, drained),
        ),
        (Phase::Waiting, WorkerEvent::Close { drained }) => {
            if drained@.len() == 0 {
                Some((Worker { phase: Phase::Stopped, ..pre }, Action::Exit))
            } else {
                Some(
                    (
                        Worker { phase: Phase::Sending { closing: true }, ..pre },
                        Action::Send { batch: drained },
                    ),
                )
            }
        },
        (Phase::Waiting, WorkerEvent::Terminate) => Some(
            (Worker { phase: Phase::Stopped, ..pre }, Action::Exit),
        ),
        (Phase::RetryWait { batch, deadline, closing }, WorkerEvent::RetryTimer) => Some(
            (Worker { phase: Phase::Sending { closing }, ..pre }, Action::Send { batch }),
        ),
        (Phase::RetryWait { batch, deadline, closing }, WorkerEvent::RetryFlush) => Some(
            (pre, Action::WaitRetry { deadline }),
        ),
        (Phase::RetryWait { batch, deadline, closing }, WorkerEvent::RetryClose) => Some(
            (
                Worker { phase: Phase::Sending { closing: true }, ..pre },
                Action::Send { batch },
            ),
        ),
        (Phase::RetryWait { batch, deadline, closing }, WorkerEvent::Terminate) => Some(
            (Worker { phase: Phase::Stopped, ..pre }, Action::Exit),
        ),
        (Phase::Sending { closing }, WorkerEvent::Sent { response, now }) => Some(
            spec_sent_outcome(pre, response, now, closing),
        ),
        (Phase::FinalSending, WorkerEvent::Sent { response, now }) => Some(
            (Worker { phase: Phase::Stopped, ..pre }, Action::Exit),
        ),
        (Phase::Draining, WorkerEvent::FinalDrain { drained }) => {
            if drained@.len() == 0 {
                Some((Worker { phase: Phase::Stopped, ..pre }, Action::Exit))
            } else {
                Some(
                    (
                        Worker { phase: Phase::FinalSending, ..pre },
                        Action::Send { batch: drained },
                    ),
                )
            }
        },
        _ => None,
    }
}

/// A cycle begins (timer or flush): an empty drain re-arms the timer and
/// causes no request; a non-empty drain is submitted.
pub open spec fn spec_cycle_outcome(pre: Worker, now: i64, drained: Vec<Envelope>) -> (
    Worker,
    Action,
) {
    if drained@.len() == 0 {
        (pre, Action::WaitCycle { deadline: spec_add_clamped(now, pre.interval) })
    } else {
        (
            Worker { phase: Phase::Sending { closing: false }, ..pre },
            Action::Send { batch: drained },
        )
    }
}

/// How the completion of an in-flight request is handled. Success and
/// permanent failure dispose of the batch. A transient failure with a
/// non-empty remainder consumes one attempt of the schedule and waits —
/// until `now` plus the next delay, or until the server-dictated instant
/// (clamped to the safety ceiling) — and an exhausted schedule drops the
/// batch. A transient failure with an empty remainder has nothing to resend
/// and is disposed of like a success.
pub open spec fn spec_sent_outcome(pre: Worker, response: Response, now: i64, closing: bool) -> (
    Worker,
    Action,
) {
    match response {
        Response::Success => spec_disposed(pre, now, closing),
        Response::NoRetry => spec_disposed(pre, now, closing),
        Response::Retry(remaining) => {
            if remaining@.len() == 0 || spec_exhausted(pre.schedule) {
                spec_disposed(pre, now, closing)
            } else {
                let deadline = spec_add_clamped(now, pre.schedule.delays@[pre.schedule.index as int]);
                (
                    Worker {
                        phase: Phase::RetryWait { batch: remaining, deadline, closing },
                        schedule: spec_advanced(pre.schedule),
                        interval: pre.interval,
                    },
                    Action::WaitRetry { deadline },
                )
            }
        },
        Response::Throttled(until, remaining) => {
            if remaining@.len() == 0 || spec_exhausted(pre.schedule) {
                spec_disposed(pre, now, closing)
            } else {
                let deadline = spec_min_instant(
                    until,
                    spec_add_clamped(now, THROTTLE_CEILING_MILLIS),
                );
                (
                    Worker {
                        phase: Phase::RetryWait { batch: remaining, deadline, closing },
                        schedule: spec_advanced(pre.schedule),
                        interval: pre.interval,
                    },
                    Action::WaitRetry { deadline },
                )
            }
        },
    }
}

impl Worker {
    /// A worker between cycles, with the whole schedule ahead of it.
    pub fn new(schedule: RetrySchedule, interval: i64) -> (w: Worker)
        requires
            schedule.wf(),
            interval >= 0,
        ensures
            w.phase is Waiting,
            w.schedule == schedule,
            w.interval == interval,
            w.wf(),
    {
        Worker { phase: Phase::Waiting, schedule, interval }
    }

    /// The first action of a freshly started worker: wait out one interval.
    pub fn start(&self, now: i64) -> (a: Action)
        requires
            self.wf(),
        ensures
            a == (Action::WaitCycle { deadline: spec_add_clamped(now, self.interval) }),
    {
        let deadline = add_clamped(now, self.interval);
        Action::WaitCycle { deadline }
    }

    /// The cycle timer fired while waiting: submit what the queue held, or
    /// re-arm the timer when it held nothing.
    pub fn on_timer(&mut self, now: i64, drained: Vec<Envelope>) -> (a: Action)
        requires
            old(self).wf(),
            old(self).phase is Waiting,
        ensures
            final(self).wf(),
            spec_step(*old(self), WorkerEvent::Timer { now, drained }) == Some(
                (*final(self), a),
            ),
    {
        self.cycle(now, drained)
    }

    /// A `Flush` command arrived while waiting: submit what the queue held
    /// now. An empty queue causes no request — the timer is merely re-armed.
    pub fn on_flush(&mut self, now: i64, drained: Vec<Envelope>) -> (a: Action)
        requires
            old(self).wf(),
            old(self).phase is Waiting,
        ensures
            final(self).wf(),
            spec_step(*old(self), WorkerEvent::Flush { now, drained }) == Some(
                (*final(self), a),
            ),
            drained@.len() == 0 ==> !(a is Send) && final(self).phase is Waiting,
    {
        self.cycle(now, drained)
    }

    /// A `Close` command arrived while waiting: submit what the queue held
    /// with a close continuation, or exit at once when it held nothing.
    pub fn on_close(&mut self, drained: Vec<Envelope>) -> (a: Action)
        requires
            old(self).wf(),
            old(self).phase is Waiting,
        ensures
            final(self).wf(),
            spec_step(*old(self), WorkerEvent::Close { drained }) == Some((*final(self), a)),
    {
        if drained.len() == 0 {
            self.phase = Phase::Stopped;
            Action::Exit
        } else {
            self.phase = Phase::Sending { closing: true };
            Action::Send { batch: drained }
        }
    }

    /// A `Terminate` command arrived: exit immediately. A batch waiting for
    /// retry is abandoned.
    pub fn on_terminate(&mut self) -> (a: Action)
        requires
            old(self).wf(),
            old(self).phase is Waiting || old(self).phase matches Phase::RetryWait { .. },
        ensures
            final(self).wf(),
            spec_step(*old(self), WorkerEvent::Terminate) == Some((*final(self), a)),
            a is Exit,
            final(self).phase is Stopped,
    {
        self.phase = Phase::Stopped;
        Action::Exit
    }

    /// The retry deadline passed: resubmit the waiting batch.
    pub fn on_retry_timer(&mut self) -> (a: Action)
        requires
            old(self).wf(),
            old(self).phase matches Phase::RetryWait { .. },
        ensures
            final(self).wf(),
            spec_step(*old(self), WorkerEvent::RetryTimer) == Some((*final(self), a)),
    {
        let mut prev = Phase::Stopped;
        core::mem::swap(&mut prev, &mut self.phase);
        match prev {
            Phase::RetryWait { batch, deadline: _, closing } => {
                self.phase = Phase::Sending { closing };
                Action::Send { batch }
            },
            _ => vstd::pervasive::unreached(),
        }
    }

    /// A `Flush` command arrived during a retry wait: it is ignored — the
    /// batch is already scheduled — and the wait simply continues.
    pub fn on_retry_flush(&self) -> (a: Action)
        requires
            self.wf(),
            self.phase matches Phase::RetryWait { .. },
        ensures
            spec_step(*self, WorkerEvent::RetryFlush) == Some((*self, a)),
            !(a is Send),
    {
        match &self.phase {
            Phase::RetryWait { deadline, .. } => Action::WaitRetry { deadline: *deadline },
            _ => vstd::pervasive::unreached(),
        }
    }

    /// A `Close` command arrived during a retry wait: the batch has retries
    /// left, so it is not abandoned — it is submitted at once, with a close
    /// continuation.
    pub fn on_retry_close(&mut self) -> (a: Action)
        requires
            old(self).wf(),
            old(self).phase matches Phase::RetryWait { .. },
        ensures
            final(self).wf(),
            spec_step(*old(self), WorkerEvent::RetryClose) == Some((*final(self), a)),
    {
        let mut prev = Phase::Stopped;
        core::mem::swap(&mut prev, &mut self.phase);
        match prev {
            Phase::RetryWait { batch, deadline: _, closing: _ } => {
                self.phase = Phase::Sending { closing: true };
                Action::Send { batch }
            },
            _ => vstd::pervasive::unreached(),
        }
    }

    /// The in-flight request completed: handle its classification as
    /// [`spec_sent_outcome`] describes. After a success the schedule stands
    /// at its first delay again.
    pub fn on_response(&mut self, response: Response, now: i64) -> (a: Action)
        requires
            old(self).wf(),
            old(self).phase matches Phase::Sending { .. } || old(self).phase is FinalSending,
        ensures
            final(self).wf(),
            spec_step(*old(self), WorkerEvent::Sent { response, now }) == Some(
                (*final(self), a),
            ),
            (old(self).phase matches Phase::Sending { .. } && response is Success)
                ==> final(self).schedule.index == 0,
    {
        let mut prev = Phase::Stopped;
        core::mem::swap(&mut prev, &mut self.phase);
        match prev {
            Phase::FinalSending => Action::Exit,
            Phase::Sending { closing } => {
                match response {
                    Response::Success => self.dispose(now, closing),
                    Response::NoRetry => self.dispose(now, closing),
                    Response::Retry(remaining) => {
                        if remaining.len() == 0 {
                            self.dispose(now, closing)
                        } else {
                            match self.schedule.next_delay() {
                                Some(delay) => {
                                    let deadline = add_clamped(now, delay);
                                    self.phase = Phase::RetryWait {
                                        batch: remaining,
                                        deadline,
                                        closing,
                                    };
                                    Action::WaitRetry { deadline }
                                },
                                None => self.dispose(now, closing),
                            }
                        }
                    },
                    Response::Throttled(until, remaining) => {
                        if remaining.len() == 0 {
                            self.dispose(now, closing)
                        } else {
                            if self.schedule.consume_slot() {
                                let ceiling = add_clamped(now, THROTTLE_CEILING_MILLIS);
                                let deadline = min_instant(until, ceiling);
                                self.phase = Phase::RetryWait {
                                    batch: remaining,
                                    deadline,
                                    closing,
                                };
                                Action::WaitRetry { deadline }
                            } else {
                                self.dispose(now, closing)
                            }
                        }
                    },
                }
            },
            _ => vstd::pervasive::unreached(),
        }
    }

    /// The final drain owed after a close: submit what came out, once, or
    /// exit when nothing did.
    pub fn on_final_drain(&mut self, drained: Vec<Envelope>) -> (a: Action)
        requires
            old(self).wf(),
            old(self).phase is Draining,
        ensures
            final(self).wf(),
            spec_step(*old(self), WorkerEvent::FinalDrain { drained }) == Some(
                (*final(self), a),
            ),
    {
        if drained.len() == 0 {
            self.phase = Phase::Stopped;
            Action::Exit
        } else {
            self.phase = Phase::FinalSending;
            Action::Send { batch: drained }
        }
    }

    /// Shared body of the timer and flush transitions.
    fn cycle(&mut self, now: i64, drained: Vec<Envelope>) -> (a: Action)
        requires
            old(self).wf(),
            old(self).phase is Waiting,
        ensures
            final(self).wf(),
            spec_cycle_outcome(*old(self), now, drained) == (*final(self), a),
    {
        if drained.len() == 0 {
            let deadline = add_clamped(now, self.interval);
            Action::WaitCycle { deadline }
        } else {
            self.phase = Phase::Sending { closing: false };
            Action::Send { batch: drained }
        }
    }

    /// Shared disposal of a finished batch.
    fn dispose(&mut self, now: i64, closing: bool) -> (a: Action)
        requires
            old(self).wf(),
        ensures
            final(self).wf(),
            (*final(self), a) == spec_disposed(*old(self), now, closing),
            final(self).schedule.index == 0,
    {
        self.schedule.reset();
        if closing {
            self.phase = Phase::Draining;
            Action::Drain
        } else {
            self.phase = Phase::Waiting;
            let deadline = add_clamped(now, self.interval);
            Action::WaitCycle { deadline }
        }
    }

    /// Whether the worker is waiting between cycles.
    pub fn is_waiting(&self) -> (b: bool)
        ensures
            b == (self.phase is Waiting),
    {
        match &self.phase {
            Phase::Waiting => true,
            _ => false,
        }
    }

    /// Whether a batch is waiting out a retry deadline.
    pub fn is_retry_waiting(&self) -> (b: bool)
        ensures
            b == (self.phase matches Phase::RetryWait { .. }),
    {
        match &self.phase {
            Phase::RetryWait { .. } => true,
            _ => false,
        }
    }

    /// Whether a request is in flight.
    pub fn is_sending(&self) -> (b: bool)
        ensures
            b == (self.phase matches Phase::Sending { .. } || self.phase is FinalSending),
    {
        match &self.phase {
            Phase::Sending { .. } => true,
            Phase::FinalSending => true,
            _ => false,
        }
    }

    /// Whether the final close-time drain is owed.
    pub fn is_draining(&self) -> (b: bool)
        ensures
            b == (self.phase is Draining),
    {
        match &self.phase {
            Phase::Draining => true,
            _ => false,
        }
    }

    /// Whether the worker has exited.
    pub fn is_stopped(&self) -> (b: bool)
        ensures
            b == (self.phase is Stopped),
    {
        match &self.phase {
            Phase::Stopped => true,
            _ => false,
        }
    }
}

/// The envelopes a phase holds (only a retry wait holds any).
pub open spec fn spec_phase_envelopes(p: Phase) -> Seq<Envelope> {
    match p {
        Phase::RetryWait { batch, .. } => batch@,
        _ => Seq::empty(),
    }
}

/// The envelopes an action carries toward the network.
pub open spec fn spec_action_envelopes(a: Action) -> Seq<Envelope> {
    match a {
        Action::Send { batch } => batch@,
        _ => Seq::empty(),
    }
}

/// The envelopes an event hands to the worker.
pub open spec fn spec_event_envelopes(e: WorkerEvent) -> Seq<Envelope> {
    match e {
        WorkerEvent::Timer { drained, .. } => drained@,
        WorkerEvent::Flush { drained, .. } => drained@,
        WorkerEvent::Close { drained } => drained@,
        WorkerEvent::FinalDrain { drained } => drained@,
        WorkerEvent::Sent { response, .. } => match response {
            Response::Retry(remaining) => remaining@,
            Response::Throttled(_, remaining) => remaining@,
            _ => Seq::empty(),
        },
        _ => Seq::empty(),
    }
}

/// The envelopes a transition deliberately discards: a terminate abandons
/// the batch waiting for retry, an exhausted (or empty) transient remainder
/// is dropped, and the final close-time submission is attempted only once,
/// whatever it returns.
pub open spec fn spec_dropped_envelopes(pre: Worker, event: WorkerEvent) -> Seq<Envelope> {
    match (pre.phase, event) {
        (Phase::RetryWait { batch, .. }, WorkerEvent::Terminate) => batch@,
        (Phase::Sending { .. }, WorkerEvent::Sent { response, .. }) => match response {
            Response::Retry(remaining) => {
                if remaining@.len() == 0 || spec_exhausted(pre.schedule) {
                    remaining@
                } else {
                    Seq::empty()
                }
            },
            Response::Throttled(_, remaining) => {
                if remaining@.len() == 0 || spec_exhausted(pre.schedule) {
                    remaining@
                } else {
                    Seq::empty()
                }
            },
            _ => Seq::empty(),
        },
        (Phase::FinalSending, WorkerEvent::Sent { response, .. }) => match response {
            Response::Retry(remaining) => remaining@,
            Response::Throttled(_, remaining) => remaining@,
            _ => Seq::empty(),
        },
        _ => Seq::empty(),
    }
}

/// An empty batch is never submitted: no transition hands the surrounding
/// task a `Send` action with an empty batch.
pub proof fn lemma_never_submits_empty_batch(pre: Worker, event: WorkerEvent)
    requires
        pre.wf(),
    ensures
        match spec_step(pre, event) {
            Some((post, a)) => a matches Action::Send { batch } ==> batch@.len() > 0,
            None => true,
        },
{
}

/// Whether a request is in flight, read off the worker's phase.
pub open spec fn spec_in_flight(w: Worker) -> bool {
    w.phase matches Phase::Sending { .. } || w.phase is FinalSending
}

/// At most one request is in flight at any instant: a `Send` action only
/// arises on a transition from a phase with no request outstanding into an
/// in-flight phase, and while a request is outstanding the only event the
/// protocol admits is that request's own completion.
pub proof fn lemma_single_request_in_flight(pre: Worker, event: WorkerEvent)
    ensures
        match spec_step(pre, event) {
            Some((post, a)) => {
                &&& (a matches Action::Send { .. } ==> !spec_in_flight(pre) && spec_in_flight(
                    post,
                ))
                &&& (spec_in_flight(pre) ==> event matches WorkerEvent::Sent { .. })
            },
            None => true,
        },
{
}

/// After a success outcome the retry schedule stands at its first delay.
pub proof fn lemma_success_resets_schedule(pre: Worker, response: Response, now: i64)
    requires
        pre.phase matches Phase::Sending { .. },
        response is Success,
    ensures
        match spec_step(pre, WorkerEvent::Sent { response, now }) {
            Some((post, a)) => post.schedule.index == 0,
            None => true,
        },
{
}

/// Once stopped, the worker admits no further event and issues no action:
/// nothing is transmitted after close or terminate has completed.
pub proof fn lemma_stopped_is_absorbing(pre: Worker, event: WorkerEvent)
    requires
        pre.phase is Stopped,
    ensures
        spec_step(pre, event) is None,
{
}

/// No envelope is duplicated or silently lost: everything a transition was
/// holding or was handed re-appears in the next phase or in the issued
/// action, except for what [`spec_dropped_envelopes`] names as deliberately
/// discarded.
pub proof fn lemma_envelopes_accounted_for(pre: Worker, event: WorkerEvent)
    requires
        pre.wf(),
    ensures
        match spec_step(pre, event) {
            Some((post, a)) => spec_phase_envelopes(post.phase) + spec_action_envelopes(a)
                + spec_dropped_envelopes(pre, event) =~= spec_phase_envelopes(pre.phase)
                + spec_event_envelopes(event),
            None => true,
        },
{
}

/// Every admitted transition leaves the worker well-formed.
pub proof fn lemma_step_preserves_wf(pre: Worker, event: WorkerEvent)
    requires
        pre.wf(),
    ensures
        match spec_step(pre, event) {
            Some((post, a)) => post.wf(),
            None => true,
        },
{
}

/// The state after replaying `events` from `w`, one [`spec_step`] at a
/// time, or `None` as soon as one of them is not admitted.
pub open spec fn spec_run(w: Worker, events: Seq<WorkerEvent>) -> Option<Worker>
    decreases events.len(),
{
    if events.len() == 0 {
        Some(w)
    } else {
        match spec_step(w, events.first()) {
            Some((w2, a)) => spec_run(w2, events.drop_first()),
            None => None,
        }
    }
}

/// All envelopes the run's `Send` actions carried toward the network.
pub open spec fn spec_run_submitted(w: Worker, events: Seq<WorkerEvent>) -> Multiset<Envelope>
    decreases events.len(),
{
    if events.len() == 0 {
        Multiset::empty()
    } else {
        match spec_step(w, events.first()) {
            Some((w2, a)) => spec_action_envelopes(a).to_multiset().add(
                spec_run_submitted(w2, events.drop_first()),
            ),
            None => Multiset::empty(),
        }
    }
}

/// All envelopes the run deliberately discarded.
pub open spec fn spec_run_dropped(w: Worker, events: Seq<WorkerEvent>) -> Multiset<Envelope>
    decreases events.len(),
{
    if events.len() == 0 {
        Multiset::empty()
    } else {
        match spec_step(w, events.first()) {
            Some((w2, a)) => spec_dropped_envelopes(w, events.first()).to_multiset().add(
                spec_run_dropped(w2, events.drop_first()),
            ),
            None => Multiset::empty(),
        }
    }
}

/// All envelopes the run's events handed to the worker.
pub open spec fn spec_run_handed(w: Worker, events: Seq<WorkerEvent>) -> Multiset<Envelope>
    decreases events.len(),
{
    if events.len() == 0 {
        Multiset::empty()
    } else {
        match spec_step(w, events.first()) {
            Some((w2, a)) => spec_event_envelopes(events.first()).to_multiset().add(
                spec_run_handed(w2, events.drop_first()),
            ),
            None => Multiset::empty(),
        }
    }
}

/// Over any admitted run: every envelope the worker held at the start or
/// was handed along the way is accounted for at the end — it is still held,
/// it was submitted in some request body, or it was dropped at one of the
/// named disposal points. Nothing is duplicated, nothing vanishes.
pub proof fn lemma_run_envelopes_accounted_for(w: Worker, events: Seq<WorkerEvent>)
    requires
        w.wf(),
    ensures
        match spec_run(w, events) {
            Some(w_end) => spec_phase_envelopes(w_end.phase).to_multiset().add(
                spec_run_submitted(w, events),
            ).add(spec_run_dropped(w, events)) =~= spec_phase_envelopes(w.phase).to_multiset()
                .add(spec_run_handed(w, events)),
            None => true,
        },
    decreases events.len(),
{
    broadcast use vstd::seq_lib::lemma_multiset_commutative;
    broadcast use vstd::multiset::group_multiset_axioms;

    if events.len() == 0 {
    } else {
        let event = events.first();
        let rest = events.drop_first();
        match spec_step(w, event) {
            Some((w2, a)) => {
                lemma_envelopes_accounted_for(w, event);
                lemma_step_preserves_wf(w, event);
                lemma_run_envelopes_accounted_for(w2, rest);
                let p_pre = spec_phase_envelopes(w.phase).to_multiset();
                let p_mid = spec_phase_envelopes(w2.phase).to_multiset();
                let a_m = spec_action_envelopes(a).to_multiset();
                let d_m = spec_dropped_envelopes(w, event).to_multiset();
                let e_m = spec_event_envelopes(event).to_multiset();
                assert(p_mid.add(a_m).add(d_m) =~= p_pre.add(e_m)) by {
                    assert((spec_phase_envelopes(w2.phase) + spec_action_envelopes(a)
                        + spec_dropped_envelopes(w, event)).to_multiset()
                        =~= (spec_phase_envelopes(w.phase) + spec_event_envelopes(
                        event,
                    )).to_multiset());
                }
                match spec_run(w2, rest) {
                    Some(w_end) => {
                        let p_end = spec_phase_envelopes(w_end.phase).to_multiset();
                        let sub2 = spec_run_submitted(w2, rest);
                        let drop2 = spec_run_dropped(w2, rest);
                        let hand2 = spec_run_handed(w2, rest);
                        assert(p_end.add(sub2).add(drop2) =~= p_mid.add(hand2));
                        assert(p_end.add(a_m.add(sub2)).add(d_m.add(drop2)) =~= p_pre.add(
                            e_m.add(hand2),
                        )) by {
                            assert forall|x: Envelope|
                                p_end.add(a_m.add(sub2)).add(d_m.add(drop2)).count(x)
                                    == p_pre.add(e_m.add(hand2)).count(x) by {
                                assert(p_mid.add(a_m).add(d_m).count(x) == p_pre.add(e_m).count(
                                    x,
                                ));
                                assert(p_end.add(sub2).add(drop2).count(x) == p_mid.add(
                                    hand2,
                                ).count(x));
                            }
                        }
                    },
                    None => {},
                }
            },
            None => {},
        }
    }
}

/// Replaying one more event steps the run once from its end.
pub proof fn lemma_run_snoc(w: Worker, events: Seq<WorkerEvent>, event: WorkerEvent)
    ensures
        spec_run(w, events.push(event)) == match spec_run(w, events) {
            Some(w_end) => match spec_step(w_end, event) {
                Some((w2, a)) => Some(w2),
                None => None::<Worker>,
            },
            None => None::<Worker>,
        },
    decreases events.len(),
{
    reveal_with_fuel(spec_run, 3);
    if events.len() == 0 {
        assert(events.push(event).first() == event);
        assert(events.push(event).drop_first() =~= events);
    } else {
        assert(events.push(event).first() == events.first());
        assert(events.push(event).drop_first() =~= events.drop_first().push(event));
        match spec_step(w, events.first()) {
            Some((w2, a)) => {
                lemma_run_snoc(w2, events.drop_first(), event);
            },
            None => {},
        }
    }
}

/// A run that has stopped cannot be extended: after the worker exits, no
/// further event is admitted, so in particular nothing further is
/// transmitted.
pub proof fn lemma_no_event_admitted_after_stop(
    w: Worker,
    events: Seq<WorkerEvent>,
    event: WorkerEvent,
)
    requires
        match spec_run(w, events) {
            Some(w_end) => w_end.phase is Stopped,
            None => false,
        },
    ensures
        spec_run(w, events.push(event)) is None,
{
    lemma_run_snoc(w, events, event);
}

} // verus!
