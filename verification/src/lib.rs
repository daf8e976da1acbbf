//! Lowering of sequential code with suspension points into explicit,
//! resumable state machines, together with the uniform polling protocol
//! that drives them.
//!
//! The crate is organised along the pipeline that a unit of sequential
//! code travels through:
//!
//! * [`ast`] models the source form: blocks of statements whose
//!   expressions may contain the four suspension points (await, yield,
//!   try and effectful for-loops).
//! * [`breaks`] is the break/label analyzer: a pure scan that counts the
//!   early exits of a loop body that target that loop.
//! * [`effect`] derives the capability triple of a unit (blocking or
//!   asynchronous, single- or multi-valued, infallible or fallible) from
//!   its declarations, checks it against the body, and selects one of the
//!   eight runtime shims.
//! * [`lower`] is the suspension rewriter: it replaces every suspension
//!   point with explicit suspend/resume control flow.
//! * [`machine`] holds the resumable-machine interfaces and the concrete
//!   machines that drive the lowered form.
//! * [`shims`] holds the eight polling shims, one per point of the
//!   capability cube, each exposing the single `poll` operation.
//! * [`loops`] is the runtime of a lowered for-loop over a producer.
//! * [`adapters`] bridges plain sequences and scripted pull-sources into
//!   the resumable-producer shape the loop runtime consumes.
//! * [`parser`] is a small pull-based consumer of the machinery: a
//!   buffered byte reader with spans and a tag parser.

use vstd::prelude::*;

pub mod adapters;
pub mod ast;
pub mod breaks;
pub mod effect;
pub mod lower;
pub mod loops;
pub mod machine;
pub mod parser;
pub mod shims;

verus! {

/// The uniform polling result: exactly one of these is returned per poll.
///
/// `Produced` carries one intermediate item and promises nothing about
/// what follows; `Suspended` asks the caller to retry later and is only
/// meaningful for asynchronous units; `Finished` and `Failed` are
/// terminal: once either is observed the machine must not be polled
/// again.
#[derive(PartialEq, Eq, Debug)]
pub enum EffectResult<I, T, E> {
    Produced(I),
    Suspended,
    Finished(T),
    Failed(E),
}

impl<I, T, E> EffectResult<I, T, E> {
    /// A result after which polling must stop.
    pub open spec fn is_terminal(self) -> bool {
        match self {
            EffectResult::Finished(_) => true,
            EffectResult::Failed(_) => true,
            _ => false,
        }
    }
}

/// The raw outcome of resuming the underlying machine once: either one
/// more yielded value, or completion with the machine's final value.
#[derive(PartialEq, Eq, Debug, Clone, Copy)]
pub enum GenStep<Y, R> {
    Yielded(Y),
    Complete(R),
}

/// One step of an asynchronous producer: not ready yet, or one value.
#[derive(PartialEq, Eq, Debug, Clone, Copy)]
pub enum PollStep<Y> {
    Pending,
    Ready(Y),
}

/// How a lowered for-loop-as-expression ended: through a `break`
/// carrying a value, or by natural exhaustion of its producer.
#[derive(PartialEq, Eq, Debug, Clone, Copy)]
pub enum ForResult<B, C> {
    Break(B),
    Complete(C),
}

} // verus!
