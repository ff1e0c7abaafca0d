//! The life of a coroutine as a mathematical object, and what holds of every
//! such life.
//!
//! A [`Lifecycle`] is the state of one coroutine as both of its sides see it.
//! Each function of the library that either side calls around a context switch
//! is one [`Step`] of it. The proofs at the end of this file speak of single
//! steps and of whole runs.

use vstd::prelude::*;
use crate::context::Record;
use crate::generator::{Canceled, Finished, GeneratorState};
use crate::stack::is_aligned;

verus! {

/// Where a coroutine stands.
#[derive(Clone, Copy, Debug, PartialEq, Eq, Structural)]
pub enum Phase {
    /// The coroutine was made and has never been resumed.
    Fresh,
    /// The driver is inside a resume.
    Running,
    /// The body is paused at a yield and the driver has control.
    Suspended,
    /// The body has completed, or the driver has given the coroutine up.
    Finished,
}

/// The state of one coroutine.
pub struct Lifecycle<Y, R> {
    /// Where the coroutine stands.
    pub phase: Phase,
    /// The shared record. It is released when the driver has received the
    /// completion value.
    pub record: Option<Record<Y, R>>,
    /// Whether the body has returned. Its stack is dead from then on.
    pub returned: bool,
    /// Every value that a resume has returned so far, oldest first.
    pub observed: Seq<GeneratorState<Y, R>>,
    /// The address at which the body's stack starts.
    pub stack_top: usize,
}

/// One thing that the driver or the body does to a coroutine.
pub enum Step<Y, R> {
    /// The driver enters a resume and switches to the body.
    BeginResume,
    /// The body asks to hand a value to the driver.
    Yield(Y),
    /// The body returns, with a completion token or with a cancellation.
    Conclude(Result<Finished<R>, Canceled>),
    /// The driver, switched back into, takes the value and leaves the resume.
    FinishResume,
    /// The driver drops the coroutine.
    Cancel,
}

/// The values in a slot, in order: the one that is there, or none.
pub open spec fn slot_values<T>(slot: Option<T>) -> Seq<T> {
    match slot {
        Some(value) => seq![value],
        None => Seq::empty(),
    }
}

/// Whether `observed` consists of yielded values, but for its last entry,
/// which may be a completion.
pub open spec fn alternates<Y, R>(observed: Seq<GeneratorState<Y, R>>) -> bool {
    forall|i: int| 0 <= i < observed.len() - 1 ==> observed[i] is Yielded
}

impl<Y, R> Lifecycle<Y, R> {
    /// A coroutine that was just made, with its stack starting at `stack_top`.
    pub open spec fn fresh(stack_top: usize) -> Self {
        Lifecycle {
            phase: Phase::Fresh,
            record: Some(Record::empty()),
            returned: false,
            observed: Seq::empty(),
            stack_top,
        }
    }

    /// What holds of a coroutine at every moment of its life.
    ///
    /// The stack starts at an aligned address. The driver has observed yielded
    /// values and, at most as the last of them, a completion. The record is
    /// released exactly when the completion has been observed. While the
    /// record is there, its cancel flag is up exactly when the coroutine is
    /// finished: it was given up. A yielded value in transfer comes from a
    /// body that is inside a resume and has not returned, a completion value
    /// from one that has returned. A fresh coroutine has an empty record and
    /// has shown nothing. A suspended one has shown something and has nothing
    /// in transfer. The body of neither has returned.
    pub open spec fn inv(self) -> bool {
        &&& is_aligned(self.stack_top as int)
        &&& alternates(self.observed)
        &&& self.record is None <==> self.observed.len() > 0 && self.observed.last() is Complete
        &&& self.record is None ==> self.phase is Finished && self.returned
        &&& self.record matches Some(record) ==> {
            &&& record.canceled <==> self.phase is Finished
            &&& record.transfer matches Some(GeneratorState::Yielded(_)) ==> self.phase is Running
                && !self.returned
            &&& record.transfer matches Some(GeneratorState::Complete(_)) ==> self.returned
        }
        &&& self.phase is Fresh ==> self.observed.len() == 0 && self.record == Some(
            Record::<Y, R>::empty(),
        )
        &&& self.phase is Suspended ==> self.observed.len() > 0 && self.record.unwrap().body_turn()
        &&& self.returned ==> self.phase is Running || self.phase is Finished
    }

    /// Whether the driver may resume the coroutine.
    pub open spec fn resumable(self) -> bool {
        self.phase is Fresh || self.phase is Suspended
    }

    /// Whether the body may act: it was switched into by a resume, or to
    /// unwind after the driver gave the coroutine up, and has neither handed a
    /// value over nor returned since.
    pub open spec fn body_has_control(self) -> bool {
        &&& self.phase is Running || self.phase is Finished
        &&& !self.returned
        &&& self.record is Some
        &&& self.record.unwrap().body_turn()
    }

    /// Whether a resume that is under way has a value to return: the body has
    /// handed one over.
    pub open spec fn delivered(self) -> bool {
        &&& self.phase is Running
        &&& self.record is Some
        &&& !self.record.unwrap().body_turn()
    }

    /// Whether the driver may drop the coroutine: it is not waiting inside a
    /// resume for a body that is still alive.
    pub open spec fn droppable(self) -> bool {
        self.phase !is Running || self.returned
    }

    /// The value that a resume under way returns.
    pub open spec fn delivery(self) -> GeneratorState<Y, R>
        recommends
            self.delivered(),
    {
        self.record.unwrap().transfer.unwrap()
    }

    /// The same coroutine with `record` as its shared record.
    pub open spec fn with_record(self, record: Record<Y, R>) -> Self {
        Lifecycle { record: Some(record), ..self }
    }

    /// The driver enters a resume: the transfer slot is emptied and the body
    /// is switched into.
    pub open spec fn begin_resume(self) -> Self
        recommends
            self.resumable(),
    {
        Lifecycle {
            phase: Phase::Running,
            record: Some(self.record.unwrap().cleared()),
            ..self
        }
    }

    /// The body asks to hand `value` to the driver. It is refused if the
    /// coroutine was given up.
    pub open spec fn yield_value(self, value: Y) -> Self
        recommends
            self.body_has_control(),
    {
        self.with_record(self.record.unwrap().yield_value(value))
    }

    /// The body returns `outcome`.
    pub open spec fn conclude(self, outcome: Result<Finished<R>, Canceled>) -> Self
        recommends
            self.body_has_control(),
    {
        Lifecycle { returned: true, ..self.with_record(self.record.unwrap().conclude(outcome)) }
    }

    /// The driver leaves the resume with the value that was delivered. After
    /// a yielded value the coroutine is suspended. After the completion value
    /// it is finished and its record is released.
    pub open spec fn finish_resume(self) -> Self
        recommends
            self.delivered(),
    {
        match self.delivery() {
            GeneratorState::Yielded(_) => Lifecycle {
                phase: Phase::Suspended,
                record: Some(self.record.unwrap().cleared()),
                observed: self.observed.push(self.delivery()),
                ..self
            },
            GeneratorState::Complete(_) => Lifecycle {
                phase: Phase::Finished,
                record: None,
                observed: self.observed.push(self.delivery()),
                ..self
            },
        }
    }

    /// The driver drops the coroutine. A finished coroutine stays as it is.
    /// Any other is finished from now on, and keeps its record, with the
    /// cancel flag up, for the body to unwind on.
    pub open spec fn cancel(self) -> Self
        recommends
            self.droppable(),
    {
        if self.phase is Finished {
            self
        } else {
            Lifecycle { phase: Phase::Finished, record: Some(self.record.unwrap().cancel()), ..self }
        }
    }

    /// Whether `step` may be taken now.
    pub open spec fn enabled(self, step: Step<Y, R>) -> bool {
        match step {
            Step::BeginResume => self.resumable(),
            Step::Yield(_) => self.body_has_control(),
            Step::Conclude(_) => self.body_has_control(),
            Step::FinishResume => self.delivered(),
            Step::Cancel => self.droppable(),
        }
    }

    /// The coroutine after `step`.
    pub open spec fn next(self, step: Step<Y, R>) -> Self
        recommends
            self.enabled(step),
    {
        match step {
            Step::BeginResume => self.begin_resume(),
            Step::Yield(value) => self.yield_value(value),
            Step::Conclude(outcome) => self.conclude(outcome),
            Step::FinishResume => self.finish_resume(),
            Step::Cancel => self.cancel(),
        }
    }

    /// Whether `step`, taken now, ends with a switch into the body: a resume
    /// always does, a drop does so for the body to unwind, unless the
    /// coroutine is finished or its body has returned.
    pub open spec fn enters_body(self, step: Step<Y, R>) -> bool
        recommends
            self.enabled(step),
    {
        match step {
            Step::BeginResume => true,
            Step::Cancel => self.phase !is Finished && !self.returned,
            _ => false,
        }
    }

    /// Whether `step`, taken now, ends with a switch to the driver: a yield
    /// does unless it is refused, and the return of the body always does.
    pub open spec fn leaves_body(self, step: Step<Y, R>) -> bool
        recommends
            self.enabled(step),
    {
        match step {
            Step::Yield(_) => !self.record.unwrap().canceled,
            Step::Conclude(_) => true,
            _ => false,
        }
    }

    /// The value that `step`, taken now, hands from the body to the driver, if
    /// it hands one over: a yield that is not refused hands over the value
    /// yielded, a body that returns a completion token hands over its value.
    pub open spec fn hands_over(self, step: Step<Y, R>) -> Option<GeneratorState<Y, R>>
        recommends
            self.enabled(step),
    {
        match step {
            Step::Yield(value) => if self.record.unwrap().canceled {
                None
            } else {
                Some(GeneratorState::Yielded(value))
            },
            Step::Conclude(Ok(finished)) => Some(GeneratorState::Complete(finished.0)),
            _ => None,
        }
    }

    /// The value that was handed over and not yet taken, as a sequence of one
    /// entry, or of none.
    pub open spec fn pending(self) -> Seq<GeneratorState<Y, R>> {
        match self.record {
            Some(record) => slot_values(record.transfer),
            None => Seq::empty(),
        }
    }

    /// Whether the steps can be taken one after the other, starting now.
    pub open spec fn permits(self, steps: Seq<Step<Y, R>>) -> bool
        decreases steps.len(),
    {
        steps.len() == 0 || (self.permits(steps.drop_last()) && self.run(steps.drop_last()).enabled(
            steps.last(),
        ))
    }

    /// The coroutine after all of `steps`.
    pub open spec fn run(self, steps: Seq<Step<Y, R>>) -> Self
        recommends
            self.permits(steps),
        decreases steps.len(),
    {
        if steps.len() == 0 {
            self
        } else {
            self.run(steps.drop_last()).next(steps.last())
        }
    }

    /// Every value that the body hands over during `steps`, oldest first.
    pub open spec fn handed(self, steps: Seq<Step<Y, R>>) -> Seq<GeneratorState<Y, R>>
        recommends
            self.permits(steps),
        decreases steps.len(),
    {
        if steps.len() == 0 {
            Seq::empty()
        } else {
            self.handed(steps.drop_last()) + slot_values(
                self.run(steps.drop_last()).hands_over(steps.last()),
            )
        }
    }
}

/// A coroutine that was just made is in order.
pub proof fn lemma_fresh_inv<Y, R>(stack_top: usize)
    requires
        is_aligned(stack_top as int),
    ensures
        Lifecycle::<Y, R>::fresh(stack_top).inv(),
{
}

/// No step that may be taken brings a coroutine out of order.
pub proof fn lemma_next_inv<Y, R>(s: Lifecycle<Y, R>, step: Step<Y, R>)
    requires
        s.inv(),
        s.enabled(step),
    ensures
        s.next(step).inv(),
{
}

/// No run of steps brings a coroutine out of order.
pub proof fn lemma_run_inv<Y, R>(s: Lifecycle<Y, R>, steps: Seq<Step<Y, R>>)
    requires
        s.inv(),
        s.permits(steps),
    ensures
        s.run(steps).inv(),
    decreases steps.len(),
{
    if steps.len() > 0 {
        lemma_run_inv(s, steps.drop_last());
        lemma_next_inv(s.run(steps.drop_last()), steps.last());
    }
}

/// Single completion. Once the driver has observed a completion, that was the
/// last value it observed, the coroutine is finished and cannot be resumed,
/// and no step that may still be taken changes anything.
pub proof fn lemma_single_completion<Y, R>(s: Lifecycle<Y, R>, i: int)
    requires
        s.inv(),
        0 <= i < s.observed.len(),
        s.observed[i] is Complete,
    ensures
        i == s.observed.len() - 1,
        s.phase is Finished,
        !s.resumable(),
        !s.delivered(),
        !s.body_has_control(),
        forall|step: Step<Y, R>| s.enabled(step) ==> s.next(step) == s,
{
}

/// A finished coroutine stays finished, and the driver observes nothing more
/// of it.
pub proof fn lemma_finished_is_final<Y, R>(s: Lifecycle<Y, R>, steps: Seq<Step<Y, R>>)
    requires
        s.inv(),
        s.phase is Finished,
        s.permits(steps),
    ensures
        s.run(steps).phase is Finished,
        s.run(steps).observed == s.observed,
    decreases steps.len(),
{
    if steps.len() > 0 {
        lemma_finished_is_final(s, steps.drop_last());
        lemma_run_inv(s, steps.drop_last());
    }
}

/// The two sides take turns. At no moment may both the driver and the body
/// act, and a driver that may resume finds the transfer slot empty.
pub proof fn lemma_one_side_at_a_time<Y, R>(s: Lifecycle<Y, R>)
    requires
        s.inv(),
    ensures
        !(s.body_has_control() && (s.resumable() || s.delivered())),
        s.phase is Running && !s.returned ==> (s.body_has_control() <==> !s.delivered()),
        s.resumable() ==> s.record.unwrap().body_turn(),
{
}

/// Control changes hands at the switches and nowhere else. The body is
/// switched into only where it is parked, fresh or suspended at a yield, and
/// has control afterwards. It is switched out of only while it has control,
/// and has none afterwards. A step that ends with no switch leaves control
/// where it was.
pub proof fn lemma_switches_pass_control<Y, R>(s: Lifecycle<Y, R>, step: Step<Y, R>)
    requires
        s.inv(),
        s.enabled(step),
    ensures
        !(s.enters_body(step) && s.leaves_body(step)),
        s.enters_body(step) ==> s.resumable() && !s.body_has_control() && s.next(
            step,
        ).body_has_control(),
        s.leaves_body(step) ==> s.body_has_control() && !s.next(step).body_has_control(),
        !s.enters_body(step) && !s.leaves_body(step) ==> s.next(step).body_has_control()
            == s.body_has_control(),
{
}

/// A body that has returned is never switched into again: its stack is dead.
/// It stays returned and never acts again.
pub proof fn lemma_returned_body_stays_out<Y, R>(s: Lifecycle<Y, R>, step: Step<Y, R>)
    requires
        s.inv(),
        s.returned,
        s.enabled(step),
    ensures
        !s.enters_body(step),
        s.next(step).returned,
        !s.next(step).body_has_control(),
{
}

/// The driver observes a value only when it leaves a resume, and the value
/// is the one that was delivered. No other step touches what was observed.
pub proof fn lemma_observed_by_resume<Y, R>(s: Lifecycle<Y, R>, step: Step<Y, R>)
    requires
        s.inv(),
        s.enabled(step),
    ensures
        step is FinishResume ==> s.next(step).observed == s.observed.push(s.delivery()),
        step !is FinishResume ==> s.next(step).observed == s.observed,
{
}

/// Whether at most one entry of `observed` is a completion.
pub open spec fn completes_at_most_once<Y, R>(observed: Seq<GeneratorState<Y, R>>) -> bool {
    forall|i: int, j: int|
        0 <= i < observed.len() && 0 <= j < observed.len() && observed[i] is Complete
            && observed[j] is Complete ==> i == j
}

/// Strict alternation. Whatever the driver and the body do with a coroutine
/// from the moment it is made, the values that the driver has observed are
/// yielded values, followed by at most one completion, which is then the last.
pub proof fn lemma_strict_alternation<Y, R>(stack_top: usize, steps: Seq<Step<Y, R>>)
    requires
        is_aligned(stack_top as int),
        Lifecycle::<Y, R>::fresh(stack_top).permits(steps),
    ensures
        alternates(Lifecycle::<Y, R>::fresh(stack_top).run(steps).observed),
        completes_at_most_once(Lifecycle::<Y, R>::fresh(stack_top).run(steps).observed),
{
    lemma_fresh_inv::<Y, R>(stack_top);
    lemma_run_inv(Lifecycle::<Y, R>::fresh(stack_top), steps);
}

/// Cancellation propagation. When the driver drops a coroutine whose body is
/// paused at a yield, or one that was never resumed, the body is switched
/// into and has control with the cancel flag up: the yield it is paused at,
/// and any it tries later, is refused and hands nothing to the driver.
pub proof fn lemma_cancel_reaches_body<Y, R>(s: Lifecycle<Y, R>, value: Y)
    requires
        s.inv(),
        s.phase is Suspended || s.phase is Fresh,
    ensures
        s.droppable(),
        s.enters_body(Step::Cancel),
        s.cancel().inv(),
        s.cancel().phase is Finished,
        s.cancel().body_has_control(),
        s.cancel().record.unwrap().canceled,
        s.cancel().yield_value(value) == s.cancel(),
        s.cancel().hands_over(Step::Yield(value)) is None,
{
}

/// The cancel flag never comes down again. After the driver has given a
/// coroutine up, whatever is done next, the record is kept for the body with
/// the flag up, and the driver observes nothing more.
pub proof fn lemma_cancel_is_final<Y, R>(s: Lifecycle<Y, R>, steps: Seq<Step<Y, R>>)
    requires
        s.inv(),
        s.record is Some,
        s.record.unwrap().canceled,
        s.permits(steps),
    ensures
        s.run(steps).record is Some,
        s.run(steps).record.unwrap().canceled,
        s.run(steps).phase is Finished,
        s.run(steps).observed == s.observed,
    decreases steps.len(),
{
    if steps.len() > 0 {
        lemma_cancel_is_final(s, steps.drop_last());
        lemma_run_inv(s, steps.drop_last());
    }
}

/// A body that was switched into by a resume is never refused: a yield fails
/// only after the driver has given the coroutine up.
pub proof fn lemma_resumed_body_is_not_refused<Y, R>(s: Lifecycle<Y, R>, value: Y)
    requires
        s.inv(),
        s.phase is Running,
        s.body_has_control(),
    ensures
        !s.record.unwrap().canceled,
        s.hands_over(Step::Yield(value)) == Some(GeneratorState::<Y, R>::Yielded(value)),
{
}

/// Value fidelity of a yield. The value that the body hands over during a
/// resume is the value that this resume returns, and the coroutine is
/// suspended after it.
pub proof fn lemma_yield_fidelity<Y, R>(s: Lifecycle<Y, R>, value: Y)
    requires
        s.inv(),
        s.phase is Running,
        s.body_has_control(),
    ensures
        s.yield_value(value).delivered(),
        s.yield_value(value).delivery() == GeneratorState::<Y, R>::Yielded(value),
        s.yield_value(value).finish_resume().phase is Suspended,
        s.yield_value(value).finish_resume().observed == s.observed.push(
            GeneratorState::Yielded(value),
        ),
{
}

/// Value fidelity of a completion. The value that the body completes with
/// during a resume is the value that this resume returns, and the coroutine
/// is finished after it.
pub proof fn lemma_done_fidelity<Y, R>(s: Lifecycle<Y, R>, value: R)
    requires
        s.inv(),
        s.phase is Running,
        s.body_has_control(),
    ensures
        s.conclude(Ok(Finished(value))).delivered(),
        s.conclude(Ok(Finished(value))).delivery() == GeneratorState::<Y, R>::Complete(value),
        s.conclude(Ok(Finished(value))).finish_resume().phase is Finished,
        s.conclude(Ok(Finished(value))).finish_resume().observed == s.observed.push(
            GeneratorState::Complete(value),
        ),
{
}

/// One step moves a value from the body into the transfer slot, or from the
/// slot to the driver, or moves nothing: what was observed, followed by what
/// is pending, grows by exactly what the step hands over.
pub proof fn lemma_step_moves_one_value<Y, R>(s: Lifecycle<Y, R>, step: Step<Y, R>)
    requires
        s.inv(),
        s.enabled(step),
    ensures
        s.next(step).observed + s.next(step).pending() =~= s.observed + s.pending() + slot_values(
            s.hands_over(step),
        ),
{
}

/// Over a whole run, nothing is lost, invented, repeated or reordered between
/// the body and the driver: what the driver has observed, followed by what is
/// pending, is what was there at the start followed by what the body handed
/// over during the run.
pub proof fn lemma_run_moves_values<Y, R>(s: Lifecycle<Y, R>, steps: Seq<Step<Y, R>>)
    requires
        s.inv(),
        s.permits(steps),
    ensures
        s.run(steps).observed + s.run(steps).pending() =~= s.observed + s.pending() + s.handed(
            steps,
        ),
    decreases steps.len(),
{
    if steps.len() > 0 {
        let before = s.run(steps.drop_last());
        lemma_run_moves_values(s, steps.drop_last());
        lemma_run_inv(s, steps.drop_last());
        lemma_step_moves_one_value(before, steps.last());
    }
}

/// Value fidelity. From the moment a coroutine is made, the values that the
/// driver observes are the values that the body hands over, in the same order
/// and each once. At most the last value handed over has not been observed:
/// it is in the transfer slot, and it is the one that a resume under way
/// returns. Whenever the driver may resume, or the body may act, the two
/// sequences are equal.
pub proof fn lemma_value_fidelity<Y, R>(stack_top: usize, steps: Seq<Step<Y, R>>)
    requires
        is_aligned(stack_top as int),
        Lifecycle::<Y, R>::fresh(stack_top).permits(steps),
    ensures
        ({
            let fresh = Lifecycle::<Y, R>::fresh(stack_top);
            let now = fresh.run(steps);
            &&& now.observed.is_prefix_of(fresh.handed(steps))
            &&& fresh.handed(steps).len() <= now.observed.len() + 1
            &&& now.delivered() ==> fresh.handed(steps) == now.observed.push(now.delivery())
            &&& now.resumable() ==> fresh.handed(steps) == now.observed
            &&& now.body_has_control() ==> fresh.handed(steps) == now.observed
        }),
{
    let fresh = Lifecycle::<Y, R>::fresh(stack_top);
    let now = fresh.run(steps);
    lemma_fresh_inv::<Y, R>(stack_top);
    lemma_run_inv(fresh, steps);
    lemma_run_moves_values(fresh, steps);
    assert(fresh.observed + fresh.pending() =~= Seq::empty());
    assert(fresh.handed(steps) =~= now.observed + now.pending());
    if now.delivered() {
        assert(now.pending() =~= seq![now.delivery()]);
        assert(now.observed + now.pending() =~= now.observed.push(now.delivery()));
    }
    if now.resumable() || now.body_has_control() {
        assert(now.observed + now.pending() =~= now.observed);
    }
}

} // verus!
