//! The resume interface that a driver sees, and the tokens a body returns.

use vstd::prelude::*;
use core::pin::Pin;

verus! {

/// The result of resuming a generator.
pub enum GeneratorState<Y, R> {
    /// The generator suspended with a value.
    ///
    /// The value is the one that the body passed when it yielded. A generator
    /// in this state can be resumed again.
    Yielded(Y),
    /// The generator completed with a return value.
    ///
    /// Once a generator has returned `Complete` it must not be resumed again.
    Complete(R),
}

/// `core::pin::Pin`, declared so that it can stand in a signature. Nothing is
/// claimed of it: a pinned pointer is carried through and never looked into.
#[verifier::external_type_specification]
#[verifier::external_body]
#[verifier::reject_recursive_types(Ptr)]
pub struct ExPin<Ptr>(Pin<Ptr>);

/// Something that can be resumed repeatedly until it completes.
pub trait Generator {
    /// The type of value this generator yields.
    type Yield;

    /// The type of value this generator returns when it completes.
    type Return;

    /// Resumes the execution of this generator.
    ///
    /// Starts the generator if it has not run yet, otherwise continues it
    /// from its latest suspension point. The generator runs until it either
    /// yields or returns, and the state says which of the two happened.
    ///
    /// An implementation may panic when it is resumed after it has returned
    /// `Complete`.
    fn resume(self: Pin<&mut Self>) -> GeneratorState<Self::Yield, Self::Return>;
}

/// The token of a body that ran to its end: the value it completed with.
///
/// A body obtains one from [`Control::done`](crate::control::Control::done)
/// and returns it.
#[derive(Debug)]
pub struct Finished<R>(pub R);

/// The error a body receives when it tries to yield to a driver that has
/// dropped the coroutine.
#[derive(Debug)]
pub struct Canceled(pub ());

} // verus!
