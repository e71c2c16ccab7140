//! The execution handle for one pod: it stands for exactly one spawned
//! listener task, and carries the interrupt protocol used by `stop`. The
//! embedder maps the task identifier to the real task join handle and to
//! the captured-output stream.

use vstd::prelude::*;

verus! {

/// The side effect a stop call asks of the supervisor.
#[derive(Debug, Clone, Copy, PartialEq, Eq, Structural)]
pub enum StopEffect {
    /// Ask the running task to abort promptly.
    Interrupt,
    /// The task was already asked to abort; nothing further to do.
    AlreadyRequested,
}

/// Handle on one spawned listener task.
#[derive(Debug, Clone, Copy, PartialEq, Eq, Structural)]
pub struct Runtime {
    /// Identifier of the spawned task and of its captured-output stream.
    pub task_id: u64,
    /// Whether the task has already been asked to abort.
    pub interrupt_requested: bool,
}

/// The handle after a stop call, with the effect the call carries: the
/// first stop interrupts, every later stop does nothing further.
pub open spec fn stop_spec(r: Runtime) -> (Runtime, StopEffect) {
    (
        Runtime { interrupt_requested: true, ..r },
        if r.interrupt_requested {
            StopEffect::AlreadyRequested
        } else {
            StopEffect::Interrupt
        },
    )
}

impl Runtime {
    /// A fresh handle for a newly spawned task; no interrupt asked yet.
    pub fn new(task_id: u64) -> (r: Runtime)
        ensures
            r.task_id == task_id,
            !r.interrupt_requested,
    {
        Runtime { task_id, interrupt_requested: false }
    }

    /// Asks the task to abort promptly. Safe to call any number of times
    /// and from any caller: only the first call carries the interrupt
    /// side effect.
    pub fn stop(&mut self) -> (effect: StopEffect)
        ensures
            *final(self) == stop_spec(*old(self)).0,
            effect == stop_spec(*old(self)).1,
    {
        let effect = if self.interrupt_requested {
            StopEffect::AlreadyRequested
        } else {
            StopEffect::Interrupt
        };
        self.interrupt_requested = true;
        effect
    }
}

/// Law: stopping a handle twice is safe and carries no duplicate task-abort
/// side effect: the handle after two stops equals the handle after one, the
/// second stop never interrupts, and the first stop on a fresh handle does.
pub proof fn lemma_stop_idempotent(r: Runtime)
    ensures
        stop_spec(stop_spec(r).0).0 == stop_spec(r).0,
        stop_spec(stop_spec(r).0).1 == StopEffect::AlreadyRequested,
        !r.interrupt_requested ==> stop_spec(r).1 == StopEffect::Interrupt,
{
}

} // verus!
