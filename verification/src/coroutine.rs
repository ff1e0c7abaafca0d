//! The coroutine object that a driver holds.
//!
//! Resuming and dropping a coroutine each switch into the body. What the
//! driver does before such a switch and after it are separate functions here,
//! and so is what the entry function of the body does around the call of the
//! body. The switch itself is the caller's.

use vstd::prelude::*;
use crate::context::Context;
use crate::control::Control;
use crate::generator::{Canceled, Finished, GeneratorState};
use crate::lifecycle::{Lifecycle, Phase, Step};
use crate::stack::{stack_top, stack_top_of, STACK_MINIMUM};

verus! {

/// A coroutine: its phase, its shared record and the start of its stack.
pub struct Coroutine<Y, R> {
    ctx: Option<Context<Y, R>>,
    phase: Phase,
    returned: bool,
    top: usize,
    observed: Ghost<Seq<GeneratorState<Y, R>>>,
}

impl<Y, R> View for Coroutine<Y, R> {
    type V = Lifecycle<Y, R>;

    closed spec fn view(&self) -> Lifecycle<Y, R> {
        Lifecycle {
            phase: self.phase,
            record: match self.ctx {
                Some(ctx) => Some(ctx@),
                None => None,
            },
            returned: self.returned,
            observed: self.observed@,
            stack_top: self.top,
        }
    }
}

impl<Y, R> Coroutine<Y, R> {
    /// Makes a coroutine whose stack is the buffer of `stack_len` bytes at
    /// address `stack_base`.
    ///
    /// `grows_up` says whether stacks grow toward higher addresses on this
    /// machine. The new coroutine is fresh, and
    /// [`stack_top`](Self::stack_top) is where its body is to start.
    pub fn new(stack_base: usize, stack_len: usize, grows_up: bool) -> (coroutine: Self)
        requires
            stack_len >= STACK_MINIMUM,
            stack_base + stack_len <= usize::MAX,
        ensures
            coroutine@ == Lifecycle::<Y, R>::fresh(
                stack_top_of(stack_base as int, stack_len as int, grows_up) as usize,
            ),
            coroutine@.inv(),
    {
        Coroutine {
            ctx: Some(Context::default()),
            phase: Phase::Fresh,
            returned: false,
            top: stack_top(stack_base, stack_len, grows_up),
            observed: Ghost(Seq::empty()),
        }
    }

    /// Where the coroutine stands.
    pub fn phase(&self) -> (phase: Phase)
        ensures
            phase == self@.phase,
    {
        self.phase
    }

    /// The address at which the body's stack starts.
    pub fn stack_top(&self) -> (top: usize)
        ensures
            top == self@.stack_top,
    {
        self.top
    }

    /// Whether the driver may resume the coroutine.
    pub fn is_resumable(&self) -> (resumable: bool)
        ensures
            resumable == self@.resumable(),
    {
        self.phase == Phase::Fresh || self.phase == Phase::Suspended
    }

    /// Whether the body may act.
    pub fn body_has_control(&self) -> (has: bool)
        ensures
            has == self@.body_has_control(),
    {
        match &self.ctx {
            Some(ctx) => (self.phase == Phase::Running || self.phase == Phase::Finished)
                && !self.returned && !ctx.has_transfer(),
            None => false,
        }
    }

    /// Whether the driver may drop the coroutine.
    pub fn is_droppable(&self) -> (droppable: bool)
        ensures
            droppable == self@.droppable(),
    {
        self.phase != Phase::Running || self.returned
    }

    /// Whether the body has returned.
    pub fn has_returned(&self) -> (returned: bool)
        ensures
            returned == self@.returned,
    {
        self.returned
    }

    /// Whether a resume that is under way has a value to return.
    pub fn is_delivered(&self) -> (delivered: bool)
        ensures
            delivered == self@.delivered(),
    {
        match &self.ctx {
            Some(ctx) => self.phase == Phase::Running && ctx.has_transfer(),
            None => false,
        }
    }

    /// The first half of a resume, up to the switch into the body.
    ///
    /// Empties the transfer slot, so that what is read after the switch was
    /// written during it. A finished coroutine cannot be resumed.
    pub fn begin_resume(&mut self)
        requires
            old(self)@.inv(),
            old(self)@.resumable(),
        ensures
            final(self)@ == old(self)@.begin_resume(),
            final(self)@.inv(),
    {
        self.ctx.as_mut().unwrap().clear();
        self.phase = Phase::Running;
    }

    /// The second half of a resume, after the body has switched back.
    ///
    /// Returns the value that the body delivered. After `Complete` the
    /// coroutine is finished and cannot be resumed again.
    pub fn finish_resume(&mut self) -> (state: GeneratorState<Y, R>)
        requires
            old(self)@.inv(),
            old(self)@.delivered(),
        ensures
            state == old(self)@.delivery(),
            final(self)@ == old(self)@.finish_resume(),
            final(self)@.inv(),
            final(self)@.observed == old(self)@.observed.push(state),
            state is Complete <==> final(self)@.phase is Finished,
            state is Yielded <==> final(self)@.phase is Suspended,
    {
        let state = self.ctx.as_mut().unwrap().take().unwrap();
        match state {
            GeneratorState::Yielded(_) => {
                self.phase = Phase::Suspended;
            },
            GeneratorState::Complete(_) => {
                self.phase = Phase::Finished;
                self.ctx = None;
            },
        }
        self.observed = Ghost(self.observed@.push(state));
        state
    }

    /// What the driver does when it drops the coroutine, up to the switch
    /// into the body.
    ///
    /// Returns whether the body is to be switched into one last time, so that
    /// it can unwind: that is so unless the coroutine was finished already or
    /// its body has returned. Unless the coroutine was finished, the cancel
    /// flag is raised, and every yield of the body is refused from now on.
    pub fn cancel(&mut self) -> (switch: bool)
        requires
            old(self)@.inv(),
            old(self)@.droppable(),
        ensures
            final(self)@ == old(self)@.cancel(),
            final(self)@.inv(),
            final(self)@.phase is Finished,
            switch <==> old(self)@.enters_body(Step::Cancel),
            switch ==> final(self)@.body_has_control() && final(self)@.record.unwrap().canceled,
    {
        if self.phase == Phase::Finished {
            return false;
        }
        self.ctx.as_mut().unwrap().cancel();
        self.phase = Phase::Finished;
        !self.returned
    }

    /// The handle that the entry function of the body passes to the body.
    ///
    /// The coroutine is borrowed for as long as the handle, or a handle that a
    /// yield gave back for it, is in use: what the body does with the handle
    /// is what happens to the record of the coroutine.
    pub fn control(&mut self) -> (control: Control<'_, Y, R>)
        requires
            old(self)@.body_has_control(),
        ensures
            control.0@ == old(self)@.record.unwrap(),
            final(self)@ == old(self)@.with_record(final(control.0)@),
    {
        Control(self.ctx.as_mut().unwrap())
    }

    /// What the entry function of the body does when the body has returned,
    /// before it leaves the stack of the body for good.
    ///
    /// A completion token has its value put into the transfer slot as
    /// `Complete`. A body that returns the cancellation it was given leaves
    /// nothing.
    pub fn conclude(&mut self, outcome: Result<Finished<R>, Canceled>)
        requires
            old(self)@.inv(),
            old(self)@.body_has_control(),
        ensures
            final(self)@ == old(self)@.conclude(outcome),
            final(self)@.inv(),
    {
        if let Ok(finished) = outcome {
            self.ctx.as_mut().unwrap().put(GeneratorState::Complete(finished.0));
        }
        self.returned = true;
    }
}

} // verus!
