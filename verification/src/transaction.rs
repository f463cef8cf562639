//! An operation under way: which step is due, what has been done, and how the
//! operation ended.
//!
//! The caller asks for the step that is due, performs it on the hardware and
//! reports the outcome. A reported failure ends the operation at once: no
//! further step is handed out.
use vstd::prelude::*;
use crate::consts::{BACKLIGHT_ADDRESS, CONTROLLER_ADDRESS};
use crate::sequence::{handshake_ops, handshake_steps, lemma_handshake_listing};
use crate::step::{ops_of, Op, Step};

verus! {

/// The errors of the driver.
#[derive(Debug, PartialEq, Eq)]
pub enum Error<E> {
    /// A bus write failed; the transport's own error is inside.
    Transport(E),
    /// A row or column that the display does not have.
    InvalidCoordinate,
}

/// How far the power-on handshake has come.
#[derive(Debug, Clone, Copy, PartialEq, Eq, Structural)]
pub enum Phase {
    /// Nothing done yet: the chip has not had its time to settle.
    Uninitialized,
    /// The settle time is over; the rounds of entry mode and function set are
    /// under way.
    EntrySettling,
    /// All three rounds are done.
    FunctionConfigured,
    /// The display is switched on and has settled.
    DisplayEnabled,
    /// The backlight chip has its mode and output configuration.
    BacklightConfigured,
    /// The display is cleared.
    Cleared,
    /// The backlight is black: the handshake is complete.
    Ready,
    /// A bus write failed: the handshake has ended without a display.
    Failed,
}

/// Mathematical model of an operation under way.
pub struct Progress<E> {
    /// All steps of the operation, in order.
    pub plan: Seq<Op>,
    /// How many steps, from the start of the plan, were performed with success.
    pub completed: nat,
    /// The transport's error, once a step has failed.
    pub failure: Option<E>,
    /// Whether this is the power-on handshake.
    pub handshake: bool,
}

impl<E> Progress<E> {
    /// Validity: the count stays within the plan, a failure belongs to a
    /// write of the plan, and a handshake has the handshake's plan.
    pub open spec fn inv(self) -> bool {
        &&& self.completed <= self.plan.len()
        &&& self.failure is Some ==> self.completed < self.plan.len()
            && self.plan[self.completed as int] is Write
        &&& self.handshake ==> self.plan == handshake_ops(0x3E, 0x60)
    }

    /// Whether a write is due.
    pub open spec fn write_due(self) -> bool {
        self.active() && self.plan[self.completed as int] is Write
    }

    /// Whether a step is due.
    pub open spec fn active(self) -> bool {
        self.failure is None && self.completed < self.plan.len()
    }

    /// The steps that were handed to the hardware so far: those completed and,
    /// after a failure, the one that failed.
    pub open spec fn issued(self) -> Seq<Op> {
        if self.failure is Some {
            self.plan.take(self.completed as int + 1)
        } else {
            self.plan.take(self.completed as int)
        }
    }

    /// The operation after `outcome` is reported for the step that is due.
    /// A write that failed ends the operation; any other step counts as
    /// performed, for a wait cannot fail. Where no step is due, a report
    /// changes nothing.
    pub open spec fn after(self, outcome: Result<(), E>) -> Self {
        if !self.active() {
            self
        } else {
            match outcome {
                Err(e) if self.write_due() => Progress { failure: Some(e), ..self },
                _ => Progress { completed: (self.completed + 1) as nat, ..self },
            }
        }
    }

    /// The operation after the reports `outcomes`, one after the other.
    pub open spec fn after_all(self, outcomes: Seq<Result<(), E>>) -> Self
        decreases outcomes.len(),
    {
        if outcomes.len() == 0 {
            self
        } else {
            self.after_all(outcomes.drop_last()).after(outcomes.last())
        }
    }

    /// The phase of a handshake, by the number of its twenty-three steps that
    /// were performed: the settle time is step 1, the rounds end with step 13,
    /// the display is on with step 15, the backlight configured with step 18,
    /// the display cleared with step 20.
    pub open spec fn phase(self) -> Phase {
        if self.failure is Some {
            Phase::Failed
        } else if self.completed == 0 {
            Phase::Uninitialized
        } else if self.completed < 13 {
            Phase::EntrySettling
        } else if self.completed < 15 {
            Phase::FunctionConfigured
        } else if self.completed < 18 {
            Phase::DisplayEnabled
        } else if self.completed < 20 {
            Phase::BacklightConfigured
        } else if self.completed < 23 {
            Phase::Cleared
        } else {
            Phase::Ready
        }
    }

    /// How the operation ended, once no step is due.
    pub open spec fn result(self) -> Result<(), Error<E>> {
        match self.failure {
            Some(e) => Err(Error::Transport(e)),
            None => Ok(()),
        }
    }
}

/// A report keeps a valid operation valid, and keeps its plan.
pub proof fn lemma_after_keeps_inv<E>(p: Progress<E>, outcome: Result<(), E>)
    requires
        p.inv(),
    ensures
        p.after(outcome).inv(),
        p.after(outcome).plan == p.plan,
        p.after(outcome).handshake == p.handshake,
{
}

/// What was handed to the hardware is always a front part of the plan, in the
/// plan's order, and a report adds at most the one step that was due.
pub proof fn lemma_issued_in_order<E>(p: Progress<E>, outcome: Result<(), E>)
    requires
        p.inv(),
    ensures
        p.issued().is_prefix_of(p.plan),
        p.issued().is_prefix_of(p.after(outcome).issued()),
        p.after(outcome).issued().len() <= p.issued().len() + 1,
{
    assert(p.issued().is_prefix_of(p.plan));
    let q = p.after(outcome);
    assert(p.issued() =~= q.issued().take(p.issued().len() as int));
}

/// A failed write ends the operation. The write that failed is the last
/// step handed out, whatever is reported afterwards, and the operation ends
/// in the transport's error.
pub proof fn lemma_failure_halts<E>(p: Progress<E>, e: E, later: Seq<Result<(), E>>)
    requires
        p.inv(),
        p.write_due(),
    ensures
        !p.after(Err(e)).active(),
        p.after(Err(e)).issued() == p.plan.take(p.completed as int + 1),
        p.after(Err(e)).result() == Err::<(), Error<E>>(Error::Transport(e)),
        p.after(Err(e)).after_all(later) == p.after(Err(e)),
    decreases later.len(),
{
    if later.len() > 0 {
        lemma_failure_halts(p, e, later.drop_last());
    }
}

/// Where every step succeeds, the whole plan is handed out in order and the
/// operation ends well.
pub proof fn lemma_success_runs_plan<E>(p: Progress<E>, outcomes: Seq<Result<(), E>>)
    requires
        p.inv(),
        p.failure is None,
        p.completed + outcomes.len() <= p.plan.len(),
        forall|i: int| 0 <= i < outcomes.len() ==> outcomes[i] is Ok,
    ensures
        p.after_all(outcomes).completed == p.completed + outcomes.len(),
        p.after_all(outcomes).failure is None,
        p.after_all(outcomes).plan == p.plan,
        p.after_all(outcomes).issued() == p.plan.take(p.completed as int + outcomes.len()),
        p.completed + outcomes.len() == p.plan.len() ==> {
            &&& !p.after_all(outcomes).active()
            &&& p.after_all(outcomes).issued() == p.plan
            &&& p.after_all(outcomes).result() == Ok::<(), Error<E>>(())
        },
    decreases outcomes.len(),
{
    if outcomes.len() > 0 {
        lemma_success_runs_plan(p, outcomes.drop_last());
        assert(outcomes.last() is Ok);
    }
    assert(p.plan.take(p.plan.len() as int) =~= p.plan);
}

/// A handshake ends in one of two phases: ready, where every step was
/// performed, or failed. Before its end it is in neither.
pub proof fn lemma_handshake_ends_ready_or_failed<E>(p: Progress<E>)
    requires
        p.inv(),
        p.handshake,
    ensures
        p.plan.len() == 23,
        p.active() <==> p.phase() != Phase::Ready && p.phase() != Phase::Failed,
        p.phase() == Phase::Ready <==> !p.active() && p.result() is Ok,
        p.phase() == Phase::Ready ==> p.issued() == p.plan,
        p.phase() == Phase::Failed <==> p.failure is Some,
{
    lemma_handshake_listing(0x3E, 0x60);
    assert(p.plan.take(23) =~= p.plan);
}

/// An operation under way.
pub struct Transaction<E> {
    steps: Vec<Step>,
    completed: usize,
    failure: Option<E>,
    handshake: bool,
}

impl<E> View for Transaction<E> {
    type V = Progress<E>;

    closed spec fn view(&self) -> Progress<E> {
        Progress {
            plan: ops_of(self.steps@),
            completed: self.completed as nat,
            failure: self.failure,
            handshake: self.handshake,
        }
    }
}

impl<E> Transaction<E> {
    /// Every transaction is valid, from its start to its end.
    #[verifier::type_invariant]
    spec fn valid(&self) -> bool {
        self@.inv()
    }

    /// Starts an operation that consists of `steps`.
    pub fn begin(steps: Vec<Step>) -> (t: Transaction<E>)
        ensures
            t@.inv(),
            t@.plan == ops_of(steps@),
            t@.completed == 0,
            t@.failure is None,
            !t@.handshake,
    {
        Transaction { steps, completed: 0, failure: None, handshake: false }
    }

    /// Starts the power-on handshake of the display at its fixed addresses.
    pub fn power_on() -> (t: Transaction<E>)
        ensures
            t@.inv(),
            t@.plan == handshake_ops(0x3E, 0x60),
            t@.completed == 0,
            t@.failure is None,
            t@.handshake,
    {
        let steps = handshake_steps(CONTROLLER_ADDRESS, BACKLIGHT_ADDRESS);
        Transaction { steps, completed: 0, failure: None, handshake: true }
    }

    /// All steps of the operation, in order.
    pub fn steps(&self) -> (steps: &Vec<Step>)
        ensures
            ops_of(steps@) == self@.plan,
    {
        &self.steps
    }

    /// How many steps were performed with success.
    pub fn completed(&self) -> (n: usize)
        ensures
            n == self@.completed,
    {
        self.completed
    }

    /// Whether this is the power-on handshake.
    pub fn is_handshake(&self) -> (yes: bool)
        ensures
            yes == self@.handshake,
    {
        self.handshake
    }

    /// The phase of the power-on handshake; nothing for another operation.
    pub fn phase(&self) -> (phase: Option<Phase>)
        ensures
            phase == if self@.handshake {
                Some(self@.phase())
            } else {
                None
            },
    {
        if !self.handshake {
            None
        } else if self.failure.is_some() {
            Some(Phase::Failed)
        } else if self.completed == 0 {
            Some(Phase::Uninitialized)
        } else if self.completed < 13 {
            Some(Phase::EntrySettling)
        } else if self.completed < 15 {
            Some(Phase::FunctionConfigured)
        } else if self.completed < 18 {
            Some(Phase::DisplayEnabled)
        } else if self.completed < 20 {
            Some(Phase::BacklightConfigured)
        } else if self.completed < 23 {
            Some(Phase::Cleared)
        } else {
            Some(Phase::Ready)
        }
    }

    /// Whether the operation has ended: no step is due.
    pub fn is_settled(&self) -> (yes: bool)
        ensures
            self@.inv(),
            yes == !self@.active(),
    {
        proof {
            use_type_invariant(self);
        }
        self.failure.is_some() || self.completed >= self.steps.len()
    }

    /// The step that is due: the first that was not performed yet, as long as
    /// none has failed.
    pub fn pending(&self) -> (step: Option<&Step>)
        ensures
            self@.inv(),
            self@.active() ==> step is Some && step->0@ == self@.plan[self@.completed as int],
            !self@.active() ==> step is None,
    {
        proof {
            use_type_invariant(self);
        }
        if self.failure.is_some() || self.completed >= self.steps.len() {
            None
        } else {
            Some(&self.steps[self.completed])
        }
    }

    /// Takes the outcome of the step that was due. A write that failed ends
    /// the operation; otherwise the next step becomes due. A wait cannot
    /// fail: whatever is reported for it, it counts as performed. Where no
    /// step was due nothing changes.
    pub fn report(&mut self, outcome: Result<(), E>)
        ensures
            old(self)@.inv(),
            final(self)@.inv(),
            final(self)@ == old(self)@.after(outcome),
    {
        proof {
            use_type_invariant(&*self);
        }
        if self.failure.is_some() || self.completed >= self.steps.len() {
            return ;
        }
        let is_write = match &self.steps[self.completed] {
            Step::Write { .. } => true,
            Step::Delay { .. } => false,
        };
        match outcome {
            Err(e) if is_write => {
                self.failure = Some(e);
            },
            _ => {
                self.completed = self.completed + 1;
            },
        }
    }

    /// How the operation ended: well where every step was performed, else
    /// with the transport's error.
    pub fn finish(self) -> (r: Result<(), Error<E>>)
        requires
            !self@.active(),
        ensures
            self@.inv(),
            r == self@.result(),
            r is Ok <==> self@.issued() == self@.plan && self@.failure is None,
    {
        proof {
            use_type_invariant(&self);
            if self@.failure is None {
                assert(self@.plan.take(self@.plan.len() as int) =~= self@.plan);
            } else {
                assert(self@.issued().len() == self@.completed + 1);
            }
        }
        match self.failure {
            Some(e) => Err(Error::Transport(e)),
            None => Ok(()),
        }
    }
}

} // verus!
