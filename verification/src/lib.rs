//! Lifecycle core of stackful, one-shot coroutines that run on caller-supplied
//! stacks.
//!
//! A coroutine is driven by two parties that never run at the same time: the
//! driver, which resumes and finally drops the coroutine, and the body, which
//! yields values and eventually completes. Between them lies a context switch
//! that saves one register set and restores another. That switch is machine
//! code and lives with the embedding program. Everything that either party
//! decides immediately before or after a switch is decided here and is
//! verified, so an operation that spans a switch comes in two halves:
//!
//! | operation          | before the switch               | after the switch                  |
//! |--------------------|---------------------------------|-----------------------------------|
//! | resume (driver)    | [`Coroutine::begin_resume`]     | [`Coroutine::finish_resume`]      |
//! | drop (driver)      | [`Coroutine::cancel`]           | nothing                           |
//! | entry of the body  | [`Coroutine::control`]          | [`Coroutine::conclude`]           |
//! | yield (body)       | [`Control::yield_value`]        | [`Control::resumed`]              |
//!
//! The modules:
//!
//! * [`stack`] places the initial stack pointer inside the caller's buffer.
//! * [`generator`] is the interface a driver sees, and the tokens of a body.
//! * [`context`] is the shared record: one transfer slot and a cancel flag.
//! * [`control`] is the capability handed to the body: yield and done.
//! * [`coroutine`] is the driver-side object with its phases.
//! * [`lifecycle`] is the mathematical model of a coroutine, together with
//!   the properties that hold of every run: a coroutine completes at most
//!   once, yields come before the completion, the driver observes exactly the
//!   values that the body hands over, a dropped coroutine cancels its body,
//!   and a body that has returned is never entered again.

pub mod context;
pub mod control;
pub mod coroutine;
pub mod generator;
pub mod lifecycle;
pub mod stack;

pub use context::{Context, Record};
pub use control::Control;
pub use coroutine::Coroutine;
pub use generator::{Canceled, Finished, Generator, GeneratorState};
pub use lifecycle::{Lifecycle, Phase, Step};
pub use stack::{align_offset, stack_grows_up, stack_top, STACK_ALIGNMENT, STACK_MINIMUM};
