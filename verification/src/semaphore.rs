//! Counting semaphore: the admission gate that bounds how many search
//! tasks run at the same time.
//!
//! The structure here is the semaphore's state — a free-permit count
//! together with the fixed limit it was created with — and the two
//! state transitions, one admission and one release. Blocking (waiting
//! on a condition until a permit is free) is the caller's concern: a
//! caller that wants a blocking wait retries `try_wait` under its own
//! condition variable, and `try_wait`'s contract says exactly when a
//! retry succeeds.
//!
//! The module also states the semaphore's laws over whole runs: along
//! any admissible sequence of acquire and release steps the permit
//! count stays within bounds, every release re-enables a waiting
//! acquire, and a run with as many releases as acquires returns the
//! count to where it started.

use vstd::prelude::*;

verus! {

/// State of a counting semaphore: `permits` free permits out of a
/// fixed `limit`. The number of currently admitted tasks is always
/// `limit - permits`.
pub struct Semaphore {
    permits: usize,
    limit: usize,
}

impl Semaphore {
    /// How many permits are currently free.
    pub closed spec fn permits(self) -> nat {
        self.permits as nat
    }

    /// The bound the semaphore was created with.
    pub closed spec fn limit(self) -> nat {
        self.limit as nat
    }

    /// Well-formedness: the free-permit count never exceeds the limit,
    /// and the limit is positive (a limit of zero would block every
    /// admission forever).
    pub open spec fn wf(self) -> bool {
        self.permits() <= self.limit() && 1 <= self.limit()
    }

    /// How many tasks are currently admitted.
    pub open spec fn live_tasks(self) -> nat {
        (self.limit() - self.permits()) as nat
    }

    /// A fresh semaphore with `count` permits, all free.
    pub fn new(count: usize) -> (s: Semaphore)
        requires
            1 <= count,
        ensures
            s.permits() == count,
            s.limit() == count,
            s.wf(),
            s.live_tasks() == 0,
    {
        Semaphore { permits: count, limit: count }
    }

    /// One admission step: succeeds exactly when a permit is free, and
    /// then takes one. A blocking wait is a retry loop around this
    /// step; the contract guarantees the retry succeeds as soon as a
    /// release has made a permit free.
    pub fn try_wait(&mut self) -> (admitted: bool)
        ensures
            admitted == (old(self).permits() > 0),
            final(self).limit() == old(self).limit(),
            admitted ==> final(self).permits() == old(self).permits() - 1,
            !admitted ==> final(self).permits() == old(self).permits(),
            old(self).wf() ==> final(self).wf(),
    {
        if self.permits > 0 {
            self.permits = self.permits - 1;
            true
        } else {
            false
        }
    }

    /// One release step: returns one permit. Callers never release
    /// more than they acquired, so a free permit slot always exists;
    /// that protocol is the precondition.
    pub fn signal(&mut self)
        requires
            old(self).permits() < old(self).limit(),
        ensures
            final(self).permits() == old(self).permits() + 1,
            final(self).limit() == old(self).limit(),
            old(self).wf() ==> final(self).wf(),
    {
        self.permits = self.permits + 1;
    }

    /// The current number of free permits.
    pub fn available(&self) -> (n: usize)
        ensures
            n == self.permits(),
    {
        self.permits
    }

    /// The bound the semaphore was created with.
    pub fn capacity(&self) -> (n: usize)
        ensures
            n == self.limit(),
    {
        self.limit
    }
}

/// One step of a semaphore's history: a successful admission or a
/// release.
pub enum SemOp {
    Acquire,
    Release,
}

/// Whether a step can happen in a state with `permits` free permits
/// out of `limit`: an acquire needs a free permit (a blocked waiter
/// simply has not taken its step yet), and a release needs a taken
/// one (callers never release more than they acquired).
pub open spec fn op_enabled(permits: nat, limit: nat, op: SemOp) -> bool {
    match op {
        SemOp::Acquire => permits > 0,
        SemOp::Release => permits < limit,
    }
}

/// The permit count after one step.
pub open spec fn apply_op(permits: nat, op: SemOp) -> nat {
    match op {
        SemOp::Acquire => (permits - 1) as nat,
        SemOp::Release => permits + 1,
    }
}

/// Whether a whole sequence of steps is admissible from a starting
/// state: each step is enabled in the state the previous steps built.
pub open spec fn trace_admissible(permits: nat, limit: nat, ops: Seq<SemOp>) -> bool
    decreases ops.len(),
{
    ops.len() == 0 || (op_enabled(permits, limit, ops[0]) && trace_admissible(
        apply_op(permits, ops[0]),
        limit,
        ops.drop_first(),
    ))
}

/// The permit count after a whole sequence of steps.
pub open spec fn run_trace(permits: nat, ops: Seq<SemOp>) -> nat
    decreases ops.len(),
{
    if ops.len() == 0 {
        permits
    } else {
        run_trace(apply_op(permits, ops[0]), ops.drop_first())
    }
}

/// How many acquire steps a sequence holds.
pub open spec fn count_acquires(ops: Seq<SemOp>) -> nat
    decreases ops.len(),
{
    if ops.len() == 0 {
        0
    } else {
        (if ops[0] is Acquire {
            1nat
        } else {
            0nat
        }) + count_acquires(ops.drop_first())
    }
}

/// How many release steps a sequence holds.
pub open spec fn count_releases(ops: Seq<SemOp>) -> nat
    decreases ops.len(),
{
    if ops.len() == 0 {
        0
    } else {
        (if ops[0] is Release {
            1nat
        } else {
            0nat
        }) + count_releases(ops.drop_first())
    }
}

/// Semaphore safety: along any admissible sequence of acquire and
/// release steps, the permit count never exceeds the limit it started
/// under (and, being a count, never goes below zero). Since the number
/// of admitted tasks is `limit - permits`, it never exceeds `limit`.
pub proof fn lemma_semaphore_safety(permits: nat, limit: nat, ops: Seq<SemOp>)
    requires
        permits <= limit,
        trace_admissible(permits, limit, ops),
    ensures
        run_trace(permits, ops) <= limit,
    decreases ops.len(),
{
    if ops.len() > 0 {
        lemma_semaphore_safety(apply_op(permits, ops[0]), limit, ops.drop_first());
    }
}

/// Permit conservation: over any admissible sequence of steps, the
/// final permit count plus the acquires equals the starting count plus
/// the releases — no permit is created or lost by the steps themselves.
pub proof fn lemma_permit_conservation(permits: nat, limit: nat, ops: Seq<SemOp>)
    requires
        trace_admissible(permits, limit, ops),
    ensures
        run_trace(permits, ops) + count_acquires(ops) == permits + count_releases(ops),
    decreases ops.len(),
{
    if ops.len() > 0 {
        lemma_permit_conservation(apply_op(permits, ops[0]), limit, ops.drop_first());
    }
}

/// A balanced run — one release for every acquire, as when every
/// spawned task released exactly once — returns the permit count to
/// exactly where it started.
pub proof fn lemma_balanced_trace_restores_permits(permits: nat, limit: nat, ops: Seq<SemOp>)
    requires
        trace_admissible(permits, limit, ops),
        count_acquires(ops) == count_releases(ops),
    ensures
        run_trace(permits, ops) == permits,
{
    lemma_permit_conservation(permits, limit, ops);
}

/// Liveness at the state level: immediately after any release step, an
/// acquire step is enabled, so a waiter that retries after each
/// release is admitted as soon as one release is not overtaken by
/// another acquire.
pub proof fn lemma_release_enables_acquire(permits: nat, limit: nat)
    ensures
        op_enabled(apply_op(permits, SemOp::Release), limit, SemOp::Acquire),
{
}

} // verus!
