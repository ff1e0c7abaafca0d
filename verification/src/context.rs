//! The record that the driver and the body of a coroutine share.
//!
//! It holds one slot for the value in transfer and the cancel flag. Each side
//! touches it only while it has control, so every write is separated from the
//! matching read by a context switch.

use vstd::prelude::*;
use crate::generator::{Canceled, Finished, GeneratorState};

verus! {

/// What a [`Context`] holds, as a mathematical value.
pub struct Record<Y, R> {
    /// The value on its way from the body to the driver, if there is one.
    pub transfer: Option<GeneratorState<Y, R>>,
    /// Whether the driver has given the coroutine up.
    pub canceled: bool,
}

impl<Y, R> Record<Y, R> {
    /// The record of a coroutine that has not run yet.
    pub open spec fn empty() -> Self {
        Record { transfer: None, canceled: false }
    }

    /// Whether it is the body's turn to write: the transfer slot is empty. The
    /// driver empties the slot before it switches into the body, and the body
    /// fills it before it switches back.
    pub open spec fn body_turn(self) -> bool {
        self.transfer is None
    }

    /// The record with `state` in its transfer slot.
    pub open spec fn put(self, state: GeneratorState<Y, R>) -> Self {
        Record { transfer: Some(state), ..self }
    }

    /// The record with its transfer slot emptied.
    pub open spec fn cleared(self) -> Self {
        Record { transfer: None, ..self }
    }

    /// The record with the cancel flag raised.
    pub open spec fn cancel(self) -> Self {
        Record { canceled: true, ..self }
    }

    /// The record after the body has asked to yield `value`: a canceled record
    /// refuses the value and stays as it is.
    pub open spec fn yield_value(self, value: Y) -> Self {
        if self.canceled {
            self
        } else {
            self.put(GeneratorState::Yielded(value))
        }
    }

    /// The record after the body has returned `outcome`: a completion value is
    /// put into the transfer slot, a cancellation leaves the record alone.
    pub open spec fn conclude(self, outcome: Result<Finished<R>, Canceled>) -> Self {
        match outcome {
            Ok(finished) => self.put(GeneratorState::Complete(finished.0)),
            Err(_) => self,
        }
    }
}

/// The shared record of one coroutine.
pub struct Context<Y, R> {
    arg: Option<GeneratorState<Y, R>>,
    canceled: bool,
}

impl<Y, R> View for Context<Y, R> {
    type V = Record<Y, R>;

    closed spec fn view(&self) -> Record<Y, R> {
        Record { transfer: self.arg, canceled: self.canceled }
    }
}

impl<Y, R> Default for Context<Y, R> {
    /// An empty record: nothing in transfer, not canceled.
    fn default() -> (ctx: Self)
        ensures
            ctx@ == Record::<Y, R>::empty(),
    {
        Context { arg: None, canceled: false }
    }
}

impl<Y, R> Context<Y, R> {
    /// Whether the driver has given the coroutine up.
    pub fn is_canceled(&self) -> (canceled: bool)
        ensures
            canceled == self@.canceled,
    {
        self.canceled
    }

    /// Whether a value is waiting in the transfer slot.
    pub fn has_transfer(&self) -> (waiting: bool)
        ensures
            waiting == self@.transfer.is_some(),
    {
        self.arg.is_some()
    }

    /// Writes `state` into the transfer slot, over whatever was there.
    pub(crate) fn put(&mut self, state: GeneratorState<Y, R>)
        ensures
            final(self)@ == old(self)@.put(state),
    {
        self.arg = Some(state);
    }

    /// Takes the value out of the transfer slot and leaves the slot empty.
    pub(crate) fn take(&mut self) -> (state: Option<GeneratorState<Y, R>>)
        ensures
            state == old(self)@.transfer,
            final(self)@ == old(self)@.cleared(),
    {
        self.arg.take()
    }

    /// Empties the transfer slot.
    pub(crate) fn clear(&mut self)
        ensures
            final(self)@ == old(self)@.cleared(),
    {
        self.arg = None;
    }

    /// Raises the cancel flag. Nothing ever lowers it again.
    pub(crate) fn cancel(&mut self)
        ensures
            final(self)@ == old(self)@.cancel(),
    {
        self.canceled = true;
    }
}

} // verus!
