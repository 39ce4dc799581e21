//! The decisions of a run: which operation to perform next, and when to stop.
//! The caller performs each operation on the device and reports how it went.

use vstd::prelude::*;
use crate::plan::{plan, program, Flags, Op};

verus! {

/// How a performed operation went.
#[derive(Clone, Copy, Debug, PartialEq, Eq, Structural)]
pub enum Outcome {
    Succeeded,
    Failed,
}

/// What the caller does next.
#[derive(Clone, Copy, Debug, PartialEq, Eq, Structural)]
pub enum Action {
    /// Perform this operation and report its outcome.
    Perform(Op),
    /// Every operation succeeded: end the process normally.
    Finish,
    /// This operation failed: terminate the process abnormally.
    Abort(Op),
}

/// The action that follows once `done` operations of `ops` were performed,
/// the last of them having failed when `failed` holds.
pub open spec fn action_of(ops: Seq<Op>, done: nat, failed: bool) -> Action {
    if failed {
        Action::Abort(ops[done - 1])
    } else if done < ops.len() {
        Action::Perform(ops[done as int])
    } else {
        Action::Finish
    }
}

/// A run in progress.
pub struct Session {
    ops: Vec<Op>,
    done: usize,
    failed: bool,
}

impl Session {
    /// The operations of the run, in order.
    pub closed spec fn ops(&self) -> Seq<Op> {
        self.ops@
    }

    /// How many operations were performed.
    pub closed spec fn done(&self) -> nat {
        self.done as nat
    }

    /// Whether the last performed operation failed.
    pub closed spec fn failed(&self) -> bool {
        self.failed
    }

    /// Only performed operations can have failed, and no more were performed
    /// than there are.
    pub open spec fn wf(&self) -> bool {
        &&& self.done() <= self.ops().len()
        &&& self.failed() ==> self.done() > 0
    }

    /// The action that is due now.
    pub open spec fn action(&self) -> Action {
        action_of(self.ops(), self.done(), self.failed())
    }

    /// A run that has not begun, for the given flags and the backend's
    /// query-resolve alignment. It depends on those two values alone.
    pub fn new(flags: Flags, alignment: u64) -> (r: Session)
        requires
            alignment <= u64::MAX / 2,
        ensures
            r.wf(),
            r.ops() == program(flags, alignment),
            r.done() == 0,
            !r.failed(),
    {
        Session { ops: plan(flags, alignment), done: 0, failed: false }
    }

    /// The action that is due now.
    pub fn next_action(&self) -> (r: Action)
        requires
            self.wf(),
        ensures
            r == self.action(),
    {
        if self.failed {
            Action::Abort(self.ops[self.done - 1])
        } else if self.done < self.ops.len() {
            Action::Perform(self.ops[self.done])
        } else {
            Action::Finish
        }
    }

    /// Records the outcome of the operation that was due.
    pub fn record(&mut self, outcome: Outcome)
        requires
            old(self).wf(),
            old(self).action() is Perform,
        ensures
            final(self).wf(),
            final(self).ops() == old(self).ops(),
            final(self).done() == old(self).done() + 1,
            final(self).failed() == (outcome == Outcome::Failed),
    {
        let count = self.ops.len();
        assert(self.done < count);
        self.done = self.done + 1;
        self.failed = outcome == Outcome::Failed;
    }
}

/// Two runs begun with the same flags and alignment are the same run: no
/// state carries over from one to the next, so each performs the same
/// operations and ends the same way for the same outcomes.
pub proof fn lemma_runs_repeat(a: Session, b: Session, flags: Flags, alignment: u64)
    requires
        a.ops() == program(flags, alignment),
        a.done() == 0 && !a.failed(),
        b.ops() == program(flags, alignment),
        b.done() == 0 && !b.failed(),
    ensures
        a.ops() == b.ops(),
        a.action() == b.action(),
        forall|done: nat, failed: bool|
            action_of(a.ops(), done, failed) == action_of(b.ops(), done, failed),
{
}

/// A run begins by acquiring the device; if that fails the run aborts at
/// once, before any query set, buffer or pass operation.
pub proof fn lemma_failed_acquisition_aborts(flags: Flags, alignment: u64)
    ensures
        action_of(program(flags, alignment), 0, false) == Action::Perform(Op::AcquireDevice),
        action_of(program(flags, alignment), 1, true) == Action::Abort(Op::AcquireDevice),
{
}

/// A failure ends a run: once an operation failed, the due action is to
/// abort, and no operation is performed any more.
pub proof fn lemma_failure_is_final(ops: Seq<Op>, done: nat)
    requires
        0 < done <= ops.len(),
    ensures
        action_of(ops, done, true) == Action::Abort(ops[done - 1]),
        !(action_of(ops, done, true) is Perform),
{
}

/// When every operation succeeds, a run performs each of them in order and
/// then finishes normally.
pub proof fn lemma_success_finishes(flags: Flags, alignment: u64)
    ensures
        forall|done: nat|
            done < program(flags, alignment).len() ==> action_of(program(flags, alignment), done, false)
                == Action::Perform(#[trigger] program(flags, alignment)[done as int]),
        action_of(program(flags, alignment), program(flags, alignment).len(), false)
            == Action::Finish,
{
}

} // verus!
