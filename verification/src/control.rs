//! The capability that the body of a coroutine works with.

use vstd::prelude::*;
use crate::context::Context;
use crate::generator::{Canceled, Finished, GeneratorState};

verus! {

/// The body's handle on the shared record of its coroutine.
///
/// Whoever holds a `Control` is running as the body. Yielding consumes the
/// handle and gives it back only if the coroutine goes on.
pub struct Control<'a, Y, R>(pub &'a mut Context<Y, R>);

impl<'a, Y, R> Control<'a, Y, R> {
    /// Hands `arg` to the driver: the first half of a yield, up to the switch
    /// to the driver.
    ///
    /// The body has the turn when it yields: the driver has emptied the
    /// transfer slot before it switched into the body.
    ///
    /// If the driver has given the coroutine up, nothing is written, the
    /// handle is consumed and the body gets `Canceled`: it must not switch.
    /// Otherwise `Yielded(arg)` is in the transfer slot on return, and the
    /// body switches to the driver. When the body is switched into again it
    /// calls [`resumed`](Self::resumed).
    pub fn yield_value(self, arg: Y) -> (r: Result<Self, Canceled>)
        requires
            old(self.0)@.body_turn(),
        ensures
            r is Err <==> old(self.0)@.canceled,
            r is Err ==> *final(self.0) == *old(self.0),
            r matches Ok(c) ==> {
                &&& c.0@ == old(self.0)@.yield_value(arg)
                &&& c.0@.transfer == Some(GeneratorState::<Y, R>::Yielded(arg))
                &&& *final(c.0) == *final(self.0)
            },
    {
        if self.0.is_canceled() {
            return Err(Canceled(()));
        }
        self.0.put(GeneratorState::Yielded(arg));
        Ok(self)
    }

    /// Looks at the cancel flag after the body has been switched into again:
    /// the second half of a yield.
    ///
    /// The driver switches into a suspended body either to resume it or to let
    /// it unwind before the coroutine is dropped. In the second case the
    /// handle is consumed and the body gets `Canceled`.
    pub fn resumed(self) -> (r: Result<Self, Canceled>)
        ensures
            r is Err <==> old(self.0)@.canceled,
            r is Err ==> *final(self.0) == *old(self.0),
            r matches Ok(c) ==> *c.0 == *old(self.0) && *final(c.0) == *final(self.0),
    {
        if self.0.is_canceled() {
            return Err(Canceled(()));
        }
        Ok(self)
    }

    /// Finishes the body with `arg`. This never fails and does not switch:
    /// the body returns the token.
    pub fn done<E>(self, arg: R) -> (r: Result<Finished<R>, E>)
        ensures
            r == Ok::<Finished<R>, E>(Finished(arg)),
            *final(self.0) == *old(self.0),
    {
        Ok(Finished(arg))
    }
}

} // verus!
