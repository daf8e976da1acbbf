//! The resumable-machine interfaces and the concrete machines that
//! model the out-of-scope native primitive.
//!
//! The design assumes some primitive capable of pausing and resuming
//! with saved locals exists; this module specifies only how it is
//! driven. A [`Coroutine`] is a blocking resumable unit: each resume
//! either yields one more value or completes with the unit's final
//! value. An [`AsyncCoroutine`] is the asynchronous shape: each yielded
//! step is either `Pending` (the unit suspended on something external)
//! or `Ready` with one value.
//!
//! Both interfaces demand deterministic, single-owner behavior: the
//! machine's whole future output is a function of its current state,
//! every resume consumes exactly one step of it, and resuming after
//! completion is a contract violation ruled out by precondition. A
//! machine advances only inside a resume call — the caller holds it
//! exclusively, so no other call site can observe an intermediate
//! state.
//!
//! [`ScriptCoroutine`] and [`AsyncScript`] are the concrete stand-ins
//! for lowered units: the saved locals are the remaining script.

use vstd::prelude::*;

use crate::{GenStep, PollStep};

verus! {

/// A blocking resumable machine: the model of a lowered synchronous
/// unit.
pub trait Coroutine: Sized {
    type Yield;

    type Return;

    /// The machine has completed; resuming again is a contract
    /// violation.
    spec fn done(&self) -> bool;

    /// The values this machine will yield, in order, before it
    /// completes.
    spec fn yields_left(&self) -> Seq<Self::Yield>;

    /// The value this machine completes with.
    spec fn ret(&self) -> Self::Return;

    /// Advances the machine by exactly one step: either the next yield
    /// in order, or — once none are left — completion with the final
    /// value.
    fn resume(&mut self) -> (s: GenStep<Self::Yield, Self::Return>)
        requires
            !old(self).done(),
        ensures
            old(self).yields_left().len() > 0 ==> {
                &&& s == GenStep::<Self::Yield, Self::Return>::Yielded(old(self).yields_left()[0])
                &&& final(self).yields_left() == old(self).yields_left().skip(1)
                &&& final(self).ret() == old(self).ret()
                &&& !final(self).done()
            },
            old(self).yields_left().len() == 0 ==> {
                &&& s == GenStep::<Self::Yield, Self::Return>::Complete(old(self).ret())
                &&& final(self).done()
            },
    ;
}

/// An asynchronous resumable machine: the model of a lowered
/// asynchronous unit. Each yielded step is `Pending` (suspended on
/// something external) or `Ready` with one value.
pub trait AsyncCoroutine: Sized {
    type Item;

    type Return;

    /// The machine has completed; resuming again is a contract
    /// violation.
    spec fn done(&self) -> bool;

    /// The steps this machine will report, in order, before it
    /// completes.
    spec fn steps_left(&self) -> Seq<PollStep<Self::Item>>;

    /// The value this machine completes with.
    spec fn ret(&self) -> Self::Return;

    /// Advances the machine by exactly one step: either the next step
    /// in order, or — once none are left — completion with the final
    /// value.
    fn resume(&mut self) -> (s: GenStep<PollStep<Self::Item>, Self::Return>)
        requires
            !old(self).done(),
        ensures
            old(self).steps_left().len() > 0 ==> {
                &&& s == GenStep::<PollStep<Self::Item>, Self::Return>::Yielded(
                    old(self).steps_left()[0],
                )
                &&& final(self).steps_left() == old(self).steps_left().skip(1)
                &&& final(self).ret() == old(self).ret()
                &&& !final(self).done()
            },
            old(self).steps_left().len() == 0 ==> {
                &&& s == GenStep::<PollStep<Self::Item>, Self::Return>::Complete(old(self).ret())
                &&& final(self).done()
            },
    ;
}

/// A blocking machine whose saved state is explicit: the values still
/// to yield and the completion value.
pub struct ScriptCoroutine<Y, R> {
    yields: Vec<Y>,
    ret: Option<R>,
}

impl<Y, R> ScriptCoroutine<Y, R> {
    /// A fresh machine that will yield `yields` in order and then
    /// complete with `ret`.
    pub fn new(yields: Vec<Y>, ret: R) -> (s: Self)
        ensures
            s.yields_left() == yields@,
            s.ret() == ret,
            !s.done(),
    {
        ScriptCoroutine { yields, ret: Some(ret) }
    }
}

impl<Y, R> Coroutine for ScriptCoroutine<Y, R> {
    type Yield = Y;

    type Return = R;

    closed spec fn done(&self) -> bool {
        self.ret is None
    }

    closed spec fn yields_left(&self) -> Seq<Y> {
        self.yields@
    }

    closed spec fn ret(&self) -> R {
        match self.ret {
            Some(r) => r,
            None => vstd::pervasive::arbitrary(),
        }
    }

    fn resume(&mut self) -> (s: GenStep<Y, R>) {
        if self.yields.len() > 0 {
            let y = self.yields.remove(0);
            GenStep::Yielded(y)
        } else {
            let r = self.ret.take().unwrap();
            GenStep::Complete(r)
        }
    }
}

/// An asynchronous machine whose saved state is explicit: the steps
/// still to report and the completion value.
pub struct AsyncScript<Y, R> {
    steps: Vec<PollStep<Y>>,
    ret: Option<R>,
}

impl<Y, R> AsyncScript<Y, R> {
    /// A fresh machine that will report `steps` in order and then
    /// complete with `ret`.
    pub fn new(steps: Vec<PollStep<Y>>, ret: R) -> (s: Self)
        ensures
            s.steps_left() == steps@,
            s.ret() == ret,
            !s.done(),
    {
        AsyncScript { steps, ret: Some(ret) }
    }
}

impl<Y, R> AsyncCoroutine for AsyncScript<Y, R> {
    type Item = Y;

    type Return = R;

    closed spec fn done(&self) -> bool {
        self.ret is None
    }

    closed spec fn steps_left(&self) -> Seq<PollStep<Y>> {
        self.steps@
    }

    closed spec fn ret(&self) -> R {
        match self.ret {
            Some(r) => r,
            None => vstd::pervasive::arbitrary(),
        }
    }

    fn resume(&mut self) -> (s: GenStep<PollStep<Y>, R>) {
        if self.steps.len() > 0 {
            let p = self.steps.remove(0);
            GenStep::Yielded(p)
        } else {
            let r = self.ret.take().unwrap();
            GenStep::Complete(r)
        }
    }
}

} // verus!
