//! The channel façade's decision logic and the supervisor's restart policy.
//!
//! The façade itself — the owner of the tokio tasks, the command channel and
//! the shutdown one-shot — lives outside this crate. What it decides, it
//! decides here: whether a close or terminate call is the first one, whether
//! a crashed worker is restarted, and how a command travels to the worker.

use vstd::prelude::*;

use crate::worker::Command;

verus! {

#[verifier::external_type_specification]
#[verifier::external_body]
#[verifier::reject_recursive_types(T)]
pub struct ExUnboundedSender<T>(futures_channel::mpsc::UnboundedSender<T>);

/// Relies on futures_channel's `UnboundedSender::unbounded_send`: the
/// message is queued for the receiver unless the channel is closed or the
/// receiver is gone; which of the two happened depends on the shared
/// channel's state, so only the fact of delivery is reported.
#[verifier::external_body]
fn unbounded_send_command(
    sender: &futures_channel::mpsc::UnboundedSender<Command>,
    command: Command,
) -> bool {
    sender.unbounded_send(command).is_ok()
}

/// Sends a command to the worker, best effort: a command the worker can no
/// longer receive is dropped, and the caller learns only whether delivery
/// happened. Commands lost this way are tolerated by design — the next
/// cycle picks up whatever accumulated.
pub fn send_command(
    sender: &futures_channel::mpsc::UnboundedSender<Command>,
    command: Command,
) -> bool {
    unbounded_send_command(sender, command)
}

/// Whether shutdown of the channel has been requested. The façade consults
/// it on `close` and `terminate`: only the first request performs the
/// shutdown; later requests do nothing.
pub struct ShutdownState {
    pub requested: bool,
}

/// What [`ShutdownState::request`] computes: the state after a request, and
/// whether that request was the first.
pub open spec fn spec_request(s: ShutdownState) -> (ShutdownState, bool) {
    (ShutdownState { requested: true }, !s.requested)
}

impl ShutdownState {
    /// No shutdown requested yet.
    pub fn new() -> (s: Self)
        ensures
            !s.requested,
    {
        ShutdownState { requested: false }
    }

    /// Requests shutdown; reports whether this call was the first, i.e.
    /// whether the caller must now perform the shutdown work.
    pub fn request(&mut self) -> (first: bool)
        ensures
            (*final(self), first) == spec_request(*old(self)),
            final(self).requested,
            first == !old(self).requested,
    {
        let first = !self.requested;
        self.requested = true;
        first
    }
}

/// Closing is idempotent: once a first request has performed the shutdown,
/// a second request leaves the state unchanged and reports that there is
/// nothing left to do, so the caller returns immediately.
pub proof fn lemma_close_idempotent(s: ShutdownState)
    ensures
        ({
            let (s1, first1) = spec_request(s);
            let (s2, first2) = spec_request(s1);
            s2 == s1 && !first2
        }),
{
}

/// How a worker task ended, as the supervisor observes it.
#[derive(Debug, Clone, Copy, PartialEq, Eq, Structural)]
pub enum WorkerExit {
    /// The worker ran to completion (close or terminate was processed).
    Graceful,
    /// The worker panicked or was torn down unexpectedly.
    Crashed,
}

/// What the supervisor does with an ended worker task.
#[derive(Debug, Clone, Copy, PartialEq, Eq, Structural)]
pub enum SupervisorDecision {
    /// Exit the supervisor loop; no new worker is spawned.
    Stop,
    /// Mint a fresh command channel, swap the façade's sender, and spawn a
    /// new worker with the new receiver.
    Restart,
}

/// The supervisor's restart policy, as a function of the observed exit and
/// the shutdown flag.
pub open spec fn spec_supervise(exit: WorkerExit, shutdown_requested: bool) -> SupervisorDecision {
    match exit {
        WorkerExit::Graceful => SupervisorDecision::Stop,
        WorkerExit::Crashed => if shutdown_requested {
            SupervisorDecision::Stop
        } else {
            SupervisorDecision::Restart
        },
    }
}

/// Decides whether an ended worker is replaced: a clean exit ends the
/// supervisor; a crash is restarted, unless shutdown was already requested —
/// restarting then could loop forever against a closing channel.
pub fn supervise(exit: WorkerExit, shutdown_requested: bool) -> (d: SupervisorDecision)
    ensures
        d == spec_supervise(exit, shutdown_requested),
{
    match exit {
        WorkerExit::Graceful => SupervisorDecision::Stop,
        WorkerExit::Crashed => {
            if shutdown_requested {
                SupervisorDecision::Stop
            } else {
                SupervisorDecision::Restart
            }
        },
    }
}

} // verus!
