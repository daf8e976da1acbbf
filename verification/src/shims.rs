//! The polling runtime shims: eight small adapter types, one per point
//! of the {blocking, asynchronous} × {single, multiple} × {infallible,
//! fallible} capability cube. Each shim wraps one resumable machine and
//! exposes exactly one operation, `poll_effect`, translating the raw
//! resume outcome into the uniform [`EffectResult`].
//!
//! Shared protocol, proved of every shim here:
//! * exactly one `EffectResult` per poll, and each poll consumes
//!   exactly one raw step of the underlying machine — `poll_effect` is
//!   the only operation that advances it, and it advances it by one;
//! * a blocking shim never returns `Suspended`;
//! * once `Finished` or `Failed` is returned the shim is exhausted, and
//!   polling it again is a contract violation: `poll_effect` forbids it
//!   by precondition, and `poll_effect_checked` detects it and refuses,
//!   mutating nothing;
//! * the single-result shims wrap machines that never yield an
//!   intermediate value, which makes their "yielded a value" branch
//!   provably unreachable.

use vstd::prelude::*;

use crate::machine::{AsyncCoroutine, Coroutine};
use crate::{EffectResult, GenStep, PollStep};

verus! {

/// The blocking, multi-valued, infallible shim: every yield of the
/// machine becomes `Produced`, and completion becomes `Finished(())`.
pub struct SyncGeneratorImpl<C: Coroutine<Return = ()>> {
    machine: C,
    exhausted: bool,
}

impl<C: Coroutine<Return = ()>> SyncGeneratorImpl<C> {
    /// Well-formed: a shim that is not exhausted wraps a machine that
    /// has not completed.
    pub closed spec fn wf(&self) -> bool {
        !self.exhausted ==> !self.machine.done()
    }

    /// Polling must stop: a terminal result has been returned.
    pub closed spec fn exhausted(&self) -> bool {
        self.exhausted
    }

    /// The values still to be produced.
    pub closed spec fn yields_left(&self) -> Seq<C::Yield> {
        self.machine.yields_left()
    }

    pub fn create(machine: C) -> (s: Self)
        requires
            !machine.done(),
        ensures
            s.wf(),
            s.yields_left() == machine.yields_left(),
            !s.exhausted(),
    {
        SyncGeneratorImpl { machine, exhausted: false }
    }

    /// The poll transition: one value produced in order, or the one
    /// terminal `Finished(())`, after which the shim is exhausted.
    pub open spec fn poll_spec(pre: Self, post: Self, r: EffectResult<C::Yield, (), ()>) -> bool {
        &&& (pre.yields_left().len() > 0 ==> {
            &&& r == EffectResult::<C::Yield, (), ()>::Produced(pre.yields_left()[0])
            &&& post.yields_left() == pre.yields_left().skip(1)
        })
        &&& (pre.yields_left().len() == 0 ==> r == EffectResult::<C::Yield, (), ()>::Finished(
            (),
        ))
        &&& post.exhausted() == r.is_terminal()
        &&& !(r is Suspended)
        &&& !(r is Failed)
    }

    pub fn poll_effect(&mut self) -> (r: EffectResult<C::Yield, (), ()>)
        requires
            old(self).wf(),
            !old(self).exhausted(),
        ensures
            final(self).wf(),
            Self::poll_spec(*old(self), *final(self), r),
    {
        match self.machine.resume() {
            GenStep::Yielded(y) => EffectResult::Produced(y),
            GenStep::Complete(()) => {
                self.exhausted = true;
                EffectResult::Finished(())
            },
        }
    }

    /// The checked poll: a poll after a terminal result is detected and
    /// refused, mutating nothing.
    pub fn poll_effect_checked(&mut self) -> (r: Option<EffectResult<C::Yield, (), ()>>)
        requires
            old(self).wf(),
        ensures
            final(self).wf(),
            r is None <==> old(self).exhausted(),
            old(self).exhausted() ==> *final(self) == *old(self),
            !old(self).exhausted() ==> Self::poll_spec(*old(self), *final(self), r.unwrap()),
    {
        if self.exhausted {
            None
        } else {
            Some(self.poll_effect())
        }
    }
}

/// The blocking, multi-valued, fallible shim: completion carries a
/// success/failure wrapper, split into `Finished` or `Failed`.
#[verifier::reject_recursive_types(E)]
pub struct SyncFallibleGeneratorImpl<E, C: Coroutine<Return = Result<(), E>>> {
    machine: C,
    exhausted: bool,
    failure: core::marker::PhantomData<E>,
}

impl<E, C: Coroutine<Return = Result<(), E>>> SyncFallibleGeneratorImpl<E, C> {
    /// Well-formed: a shim that is not exhausted wraps a machine that
    /// has not completed.
    pub closed spec fn wf(&self) -> bool {
        !self.exhausted ==> !self.machine.done()
    }

    pub closed spec fn exhausted(&self) -> bool {
        self.exhausted
    }

    pub closed spec fn yields_left(&self) -> Seq<C::Yield> {
        self.machine.yields_left()
    }

    /// The completion value the machine will end with.
    pub closed spec fn outcome(&self) -> Result<(), E> {
        self.machine.ret()
    }

    pub fn create(machine: C) -> (s: Self)
        requires
            !machine.done(),
        ensures
            s.wf(),
            s.yields_left() == machine.yields_left(),
            s.outcome() == machine.ret(),
            !s.exhausted(),
    {
        SyncFallibleGeneratorImpl { machine, exhausted: false, failure: core::marker::PhantomData }
    }

    pub open spec fn poll_spec(pre: Self, post: Self, r: EffectResult<C::Yield, (), E>) -> bool {
        &&& (pre.yields_left().len() > 0 ==> {
            &&& r == EffectResult::<C::Yield, (), E>::Produced(pre.yields_left()[0])
            &&& post.yields_left() == pre.yields_left().skip(1)
            &&& post.outcome() == pre.outcome()
        })
        &&& (pre.yields_left().len() == 0 ==> r == (match pre.outcome() {
            Ok(u) => EffectResult::<C::Yield, (), E>::Finished(u),
            Err(e) => EffectResult::<C::Yield, (), E>::Failed(e),
        }))
        &&& post.exhausted() == r.is_terminal()
        &&& !(r is Suspended)
    }

    pub fn poll_effect(&mut self) -> (r: EffectResult<C::Yield, (), E>)
        requires
            old(self).wf(),
            !old(self).exhausted(),
        ensures
            final(self).wf(),
            Self::poll_spec(*old(self), *final(self), r),
    {
        match self.machine.resume() {
            GenStep::Yielded(y) => EffectResult::Produced(y),
            GenStep::Complete(Ok(u)) => {
                self.exhausted = true;
                EffectResult::Finished(u)
            },
            GenStep::Complete(Err(e)) => {
                self.exhausted = true;
                EffectResult::Failed(e)
            },
        }
    }

    pub fn poll_effect_checked(&mut self) -> (r: Option<EffectResult<C::Yield, (), E>>)
        requires
            old(self).wf(),
        ensures
            final(self).wf(),
            r is None <==> old(self).exhausted(),
            old(self).exhausted() ==> *final(self) == *old(self),
            !old(self).exhausted() ==> Self::poll_spec(*old(self), *final(self), r.unwrap()),
    {
        if self.exhausted {
            None
        } else {
            Some(self.poll_effect())
        }
    }
}

/// The blocking, single-valued, infallible shim: the machine yields no
/// intermediate value — that branch is provably unreachable — and the
/// one poll returns `Finished` with the completion value.
pub struct SyncImpl<C: Coroutine> {
    machine: C,
    exhausted: bool,
}

impl<C: Coroutine> SyncImpl<C> {
    /// Well-formed: the machine has not completed while the shim is
    /// live, and — this being a single-result shim — it never yields an
    /// intermediate value.
    pub closed spec fn wf(&self) -> bool {
        !self.exhausted ==> (!self.machine.done() && self.machine.yields_left().len() == 0)
    }

    pub closed spec fn exhausted(&self) -> bool {
        self.exhausted
    }

    /// The value the one successful poll will return.
    pub closed spec fn value(&self) -> C::Return {
        self.machine.ret()
    }

    pub fn create(machine: C) -> (s: Self)
        requires
            !machine.done(),
            machine.yields_left().len() == 0,
        ensures
            s.wf(),
            s.value() == machine.ret(),
            !s.exhausted(),
    {
        SyncImpl { machine, exhausted: false }
    }

    pub open spec fn poll_spec(pre: Self, post: Self, r: EffectResult<C::Yield, C::Return, ()>) -> bool {
        &&& r == EffectResult::<C::Yield, C::Return, ()>::Finished(pre.value())
        &&& post.exhausted()
        &&& !(r is Suspended)
        &&& !(r is Failed)
    }

    pub fn poll_effect(&mut self) -> (r: EffectResult<C::Yield, C::Return, ()>)
        requires
            old(self).wf(),
            !old(self).exhausted(),
        ensures
            final(self).wf(),
            Self::poll_spec(*old(self), *final(self), r),
    {
        match self.machine.resume() {
            GenStep::Yielded(_) => vstd::pervasive::unreached(),
            GenStep::Complete(v) => {
                self.exhausted = true;
                EffectResult::Finished(v)
            },
        }
    }

    pub fn poll_effect_checked(&mut self) -> (r: Option<EffectResult<C::Yield, C::Return, ()>>)
        requires
            old(self).wf(),
        ensures
            final(self).wf(),
            r is None <==> old(self).exhausted(),
            old(self).exhausted() ==> *final(self) == *old(self),
            !old(self).exhausted() ==> Self::poll_spec(*old(self), *final(self), r.unwrap()),
    {
        if self.exhausted {
            None
        } else {
            Some(self.poll_effect())
        }
    }
}

/// The blocking, single-valued, fallible shim: the one poll splits the
/// machine's success/failure completion into `Finished` or `Failed`.
#[verifier::reject_recursive_types(T)]
#[verifier::reject_recursive_types(E)]
pub struct SyncFallibleImpl<T, E, C: Coroutine<Return = Result<T, E>>> {
    machine: C,
    exhausted: bool,
    value: core::marker::PhantomData<T>,
    failure: core::marker::PhantomData<E>,
}

impl<T, E, C: Coroutine<Return = Result<T, E>>> SyncFallibleImpl<T, E, C> {
    /// Well-formed: the machine has not completed while the shim is
    /// live, and — this being a single-result shim — it never yields an
    /// intermediate value.
    pub closed spec fn wf(&self) -> bool {
        !self.exhausted ==> (!self.machine.done() && self.machine.yields_left().len() == 0)
    }

    pub closed spec fn exhausted(&self) -> bool {
        self.exhausted
    }

    /// The success-or-failure outcome the one poll will report.
    pub closed spec fn outcome(&self) -> Result<T, E> {
        self.machine.ret()
    }

    pub fn create(machine: C) -> (s: Self)
        requires
            !machine.done(),
            machine.yields_left().len() == 0,
        ensures
            s.wf(),
            s.outcome() == machine.ret(),
            !s.exhausted(),
    {
        SyncFallibleImpl {
            machine,
            exhausted: false,
            value: core::marker::PhantomData,
            failure: core::marker::PhantomData,
        }
    }

    pub open spec fn poll_spec(pre: Self, post: Self, r: EffectResult<C::Yield, T, E>) -> bool {
        &&& r == (match pre.outcome() {
            Ok(v) => EffectResult::<C::Yield, T, E>::Finished(v),
            Err(e) => EffectResult::<C::Yield, T, E>::Failed(e),
        })
        &&& post.exhausted()
    }

    pub fn poll_effect(&mut self) -> (r: EffectResult<C::Yield, T, E>)
        requires
            old(self).wf(),
            !old(self).exhausted(),
        ensures
            final(self).wf(),
            Self::poll_spec(*old(self), *final(self), r),
    {
        match self.machine.resume() {
            GenStep::Yielded(_) => vstd::pervasive::unreached(),
            GenStep::Complete(Ok(v)) => {
                self.exhausted = true;
                EffectResult::Finished(v)
            },
            GenStep::Complete(Err(e)) => {
                self.exhausted = true;
                EffectResult::Failed(e)
            },
        }
    }

    pub fn poll_effect_checked(&mut self) -> (r: Option<EffectResult<C::Yield, T, E>>)
        requires
            old(self).wf(),
        ensures
            final(self).wf(),
            r is None <==> old(self).exhausted(),
            old(self).exhausted() ==> *final(self) == *old(self),
            !old(self).exhausted() ==> Self::poll_spec(*old(self), *final(self), r.unwrap()),
    {
        if self.exhausted {
            None
        } else {
            Some(self.poll_effect())
        }
    }
}

/// The values an asynchronous machine will hand over: its `Ready`
/// steps in order, with the `Pending` steps between them dropped.
pub open spec fn ready_items<Y>(s: Seq<PollStep<Y>>) -> Seq<Y>
    decreases s.len(),
{
    if s.len() == 0 {
        Seq::empty()
    } else {
        match s[0] {
            PollStep::Pending => ready_items(s.skip(1)),
            PollStep::Ready(y) => seq![y] + ready_items(s.skip(1)),
        }
    }
}

/// Whether an asynchronous machine's remaining steps hold no value: a
/// single-result unit only ever reports `Pending` before completing.
pub open spec fn all_pending<Y>(s: Seq<PollStep<Y>>) -> bool {
    forall|i: int| 0 <= i < s.len() ==> s[i] == PollStep::<Y>::Pending
}

/// The asynchronous, multi-valued, infallible shim: a ready step
/// becomes `Produced`, a pending step becomes `Suspended`, and
/// completion becomes `Finished(())`.
pub struct AsyncGeneratorImpl<C: AsyncCoroutine<Return = ()>> {
    machine: C,
    exhausted: bool,
}

impl<C: AsyncCoroutine<Return = ()>> AsyncGeneratorImpl<C> {
    /// Well-formed: a shim that is not exhausted wraps a machine that
    /// has not completed.
    pub closed spec fn wf(&self) -> bool {
        !self.exhausted ==> !self.machine.done()
    }

    /// Polling must stop: a terminal result has been returned.
    pub closed spec fn exhausted(&self) -> bool {
        self.exhausted
    }

    /// The steps still to be reported.
    pub closed spec fn steps_left(&self) -> Seq<PollStep<C::Item>> {
        self.machine.steps_left()
    }

    pub fn create(machine: C) -> (s: Self)
        requires
            !machine.done(),
        ensures
            s.wf(),
            s.steps_left() == machine.steps_left(),
            !s.exhausted(),
    {
        AsyncGeneratorImpl { machine, exhausted: false }
    }

    /// The poll transition: one raw step consumed per poll — `Pending`
    /// surfaces as `Suspended`, a ready value as `Produced` — and the
    /// one terminal `Finished(())` once no steps are left.
    pub open spec fn poll_spec(pre: Self, post: Self, r: EffectResult<C::Item, (), ()>) -> bool {
        &&& (pre.steps_left().len() > 0 ==> {
            &&& r == (match pre.steps_left()[0] {
                PollStep::Pending => EffectResult::<C::Item, (), ()>::Suspended,
                PollStep::Ready(y) => EffectResult::<C::Item, (), ()>::Produced(y),
            })
            &&& post.steps_left() == pre.steps_left().skip(1)
        })
        &&& (pre.steps_left().len() == 0 ==> r == EffectResult::<C::Item, (), ()>::Finished(()))
        &&& post.exhausted() == r.is_terminal()
        &&& !(r is Failed)
    }

    pub fn poll_effect(&mut self) -> (r: EffectResult<C::Item, (), ()>)
        requires
            old(self).wf(),
            !old(self).exhausted(),
        ensures
            final(self).wf(),
            Self::poll_spec(*old(self), *final(self), r),
    {
        match self.machine.resume() {
            GenStep::Yielded(PollStep::Pending) => EffectResult::Suspended,
            GenStep::Yielded(PollStep::Ready(y)) => EffectResult::Produced(y),
            GenStep::Complete(()) => {
                self.exhausted = true;
                EffectResult::Finished(())
            },
        }
    }

    /// The checked poll: a poll after a terminal result is detected and
    /// refused, mutating nothing.
    pub fn poll_effect_checked(&mut self) -> (r: Option<EffectResult<C::Item, (), ()>>)
        requires
            old(self).wf(),
        ensures
            final(self).wf(),
            r is None <==> old(self).exhausted(),
            old(self).exhausted() ==> *final(self) == *old(self),
            !old(self).exhausted() ==> Self::poll_spec(*old(self), *final(self), r.unwrap()),
    {
        if self.exhausted {
            None
        } else {
            Some(self.poll_effect())
        }
    }
}

/// The asynchronous, multi-valued, fallible shim: as the infallible
/// one, with the success/failure completion split into `Finished` or
/// `Failed`.
#[verifier::reject_recursive_types(E)]
pub struct AsyncFallibleGeneratorImpl<E, C: AsyncCoroutine<Return = Result<(), E>>> {
    machine: C,
    exhausted: bool,
    failure: core::marker::PhantomData<E>,
}

impl<E, C: AsyncCoroutine<Return = Result<(), E>>> AsyncFallibleGeneratorImpl<E, C> {
    pub closed spec fn wf(&self) -> bool {
        !self.exhausted ==> !self.machine.done()
    }

    pub closed spec fn exhausted(&self) -> bool {
        self.exhausted
    }

    pub closed spec fn steps_left(&self) -> Seq<PollStep<C::Item>> {
        self.machine.steps_left()
    }

    /// The completion value the machine will end with.
    pub closed spec fn outcome(&self) -> Result<(), E> {
        self.machine.ret()
    }

    pub fn create(machine: C) -> (s: Self)
        requires
            !machine.done(),
        ensures
            s.wf(),
            s.steps_left() == machine.steps_left(),
            s.outcome() == machine.ret(),
            !s.exhausted(),
    {
        AsyncFallibleGeneratorImpl { machine, exhausted: false, failure: core::marker::PhantomData }
    }

    pub open spec fn poll_spec(pre: Self, post: Self, r: EffectResult<C::Item, (), E>) -> bool {
        &&& (pre.steps_left().len() > 0 ==> {
            &&& r == (match pre.steps_left()[0] {
                PollStep::Pending => EffectResult::<C::Item, (), E>::Suspended,
                PollStep::Ready(y) => EffectResult::<C::Item, (), E>::Produced(y),
            })
            &&& post.steps_left() == pre.steps_left().skip(1)
            &&& post.outcome() == pre.outcome()
        })
        &&& (pre.steps_left().len() == 0 ==> r == (match pre.outcome() {
            Ok(u) => EffectResult::<C::Item, (), E>::Finished(u),
            Err(e) => EffectResult::<C::Item, (), E>::Failed(e),
        }))
        &&& post.exhausted() == r.is_terminal()
    }

    pub fn poll_effect(&mut self) -> (r: EffectResult<C::Item, (), E>)
        requires
            old(self).wf(),
            !old(self).exhausted(),
        ensures
            final(self).wf(),
            Self::poll_spec(*old(self), *final(self), r),
    {
        match self.machine.resume() {
            GenStep::Yielded(PollStep::Pending) => EffectResult::Suspended,
            GenStep::Yielded(PollStep::Ready(y)) => EffectResult::Produced(y),
            GenStep::Complete(Ok(u)) => {
                self.exhausted = true;
                EffectResult::Finished(u)
            },
            GenStep::Complete(Err(e)) => {
                self.exhausted = true;
                EffectResult::Failed(e)
            },
        }
    }

    pub fn poll_effect_checked(&mut self) -> (r: Option<EffectResult<C::Item, (), E>>)
        requires
            old(self).wf(),
        ensures
            final(self).wf(),
            r is None <==> old(self).exhausted(),
            old(self).exhausted() ==> *final(self) == *old(self),
            !old(self).exhausted() ==> Self::poll_spec(*old(self), *final(self), r.unwrap()),
    {
        if self.exhausted {
            None
        } else {
            Some(self.poll_effect())
        }
    }
}

/// The asynchronous, single-valued, infallible shim: a pending step
/// becomes `Suspended`; a ready intermediate value is provably
/// unreachable; completion becomes `Finished` with the value.
pub struct AsyncImpl<C: AsyncCoroutine> {
    machine: C,
    exhausted: bool,
}

impl<C: AsyncCoroutine> AsyncImpl<C> {
    /// Well-formed: while the shim is live the machine has not
    /// completed and — this being a single-result shim — every
    /// remaining step is `Pending`.
    pub closed spec fn wf(&self) -> bool {
        !self.exhausted ==> (!self.machine.done() && all_pending(self.machine.steps_left()))
    }

    pub closed spec fn exhausted(&self) -> bool {
        self.exhausted
    }

    /// How many times this shim will still report `Suspended` before
    /// it finishes.
    pub closed spec fn pending_left(&self) -> nat {
        self.machine.steps_left().len()
    }

    /// The value the final poll will return.
    pub closed spec fn value(&self) -> C::Return {
        self.machine.ret()
    }

    pub fn create(machine: C) -> (s: Self)
        requires
            !machine.done(),
            all_pending(machine.steps_left()),
        ensures
            s.wf(),
            s.pending_left() == machine.steps_left().len(),
            s.value() == machine.ret(),
            !s.exhausted(),
    {
        AsyncImpl { machine, exhausted: false }
    }

    pub open spec fn poll_spec(pre: Self, post: Self, r: EffectResult<C::Item, C::Return, ()>) -> bool {
        &&& (pre.pending_left() > 0 ==> {
            &&& r == EffectResult::<C::Item, C::Return, ()>::Suspended
            &&& post.pending_left() == pre.pending_left() - 1
            &&& post.value() == pre.value()
        })
        &&& (pre.pending_left() == 0 ==> r == EffectResult::<C::Item, C::Return, ()>::Finished(
            pre.value(),
        ))
        &&& post.exhausted() == r.is_terminal()
        &&& !(r is Produced)
        &&& !(r is Failed)
    }

    pub fn poll_effect(&mut self) -> (r: EffectResult<C::Item, C::Return, ()>)
        requires
            old(self).wf(),
            !old(self).exhausted(),
        ensures
            final(self).wf(),
            Self::poll_spec(*old(self), *final(self), r),
    {
        let ghost pre_steps = self.machine.steps_left();
        match self.machine.resume() {
            GenStep::Yielded(PollStep::Pending) => {
                proof {
                    assert forall|i: int| 0 <= i < self.machine.steps_left().len() implies self
                        .machine.steps_left()[i] == PollStep::<C::Item>::Pending by {
                        assert(self.machine.steps_left()[i] == pre_steps[i + 1]);
                    }
                }
                EffectResult::Suspended
            },
            GenStep::Yielded(PollStep::Ready(_)) => vstd::pervasive::unreached(),
            GenStep::Complete(v) => {
                self.exhausted = true;
                EffectResult::Finished(v)
            },
        }
    }

    pub fn poll_effect_checked(&mut self) -> (r: Option<EffectResult<C::Item, C::Return, ()>>)
        requires
            old(self).wf(),
        ensures
            final(self).wf(),
            r is None <==> old(self).exhausted(),
            old(self).exhausted() ==> *final(self) == *old(self),
            !old(self).exhausted() ==> Self::poll_spec(*old(self), *final(self), r.unwrap()),
    {
        if self.exhausted {
            None
        } else {
            Some(self.poll_effect())
        }
    }
}

/// The asynchronous, single-valued, fallible shim: as [`AsyncImpl`],
/// with the success/failure completion split into `Finished` or
/// `Failed`.
#[verifier::reject_recursive_types(T)]
#[verifier::reject_recursive_types(E)]
pub struct AsyncFallibleImpl<T, E, C: AsyncCoroutine<Return = Result<T, E>>> {
    machine: C,
    exhausted: bool,
    value: core::marker::PhantomData<T>,
    failure: core::marker::PhantomData<E>,
}

impl<T, E, C: AsyncCoroutine<Return = Result<T, E>>> AsyncFallibleImpl<T, E, C> {
    pub closed spec fn wf(&self) -> bool {
        !self.exhausted ==> (!self.machine.done() && all_pending(self.machine.steps_left()))
    }

    pub closed spec fn exhausted(&self) -> bool {
        self.exhausted
    }

    pub closed spec fn pending_left(&self) -> nat {
        self.machine.steps_left().len()
    }

    /// The success-or-failure outcome the final poll will report.
    pub closed spec fn outcome(&self) -> Result<T, E> {
        self.machine.ret()
    }

    pub fn create(machine: C) -> (s: Self)
        requires
            !machine.done(),
            all_pending(machine.steps_left()),
        ensures
            s.wf(),
            s.pending_left() == machine.steps_left().len(),
            s.outcome() == machine.ret(),
            !s.exhausted(),
    {
        AsyncFallibleImpl {
            machine,
            exhausted: false,
            value: core::marker::PhantomData,
            failure: core::marker::PhantomData,
        }
    }

    pub open spec fn poll_spec(pre: Self, post: Self, r: EffectResult<C::Item, T, E>) -> bool {
        &&& (pre.pending_left() > 0 ==> {
            &&& r == EffectResult::<C::Item, T, E>::Suspended
            &&& post.pending_left() == pre.pending_left() - 1
            &&& post.outcome() == pre.outcome()
        })
        &&& (pre.pending_left() == 0 ==> r == (match pre.outcome() {
            Ok(v) => EffectResult::<C::Item, T, E>::Finished(v),
            Err(e) => EffectResult::<C::Item, T, E>::Failed(e),
        }))
        &&& post.exhausted() == r.is_terminal()
        &&& !(r is Produced)
    }

    pub fn poll_effect(&mut self) -> (r: EffectResult<C::Item, T, E>)
        requires
            old(self).wf(),
            !old(self).exhausted(),
        ensures
            final(self).wf(),
            Self::poll_spec(*old(self), *final(self), r),
    {
        let ghost pre_steps = self.machine.steps_left();
        match self.machine.resume() {
            GenStep::Yielded(PollStep::Pending) => {
                proof {
                    assert forall|i: int| 0 <= i < self.machine.steps_left().len() implies self
                        .machine.steps_left()[i] == PollStep::<C::Item>::Pending by {
                        assert(self.machine.steps_left()[i] == pre_steps[i + 1]);
                    }
                }
                EffectResult::Suspended
            },
            GenStep::Yielded(PollStep::Ready(_)) => vstd::pervasive::unreached(),
            GenStep::Complete(Ok(v)) => {
                self.exhausted = true;
                EffectResult::Finished(v)
            },
            GenStep::Complete(Err(e)) => {
                self.exhausted = true;
                EffectResult::Failed(e)
            },
        }
    }

    pub fn poll_effect_checked(&mut self) -> (r: Option<EffectResult<C::Item, T, E>>)
        requires
            old(self).wf(),
        ensures
            final(self).wf(),
            r is None <==> old(self).exhausted(),
            old(self).exhausted() ==> *final(self) == *old(self),
            !old(self).exhausted() ==> Self::poll_spec(*old(self), *final(self), r.unwrap()),
    {
        if self.exhausted {
            None
        } else {
            Some(self.poll_effect())
        }
    }
}

/// Terminal finality, stated of the blocking generator shim: a poll
/// that returns `Finished` or `Failed` leaves the shim exhausted, and
/// a poll that does not leaves it not exhausted — so after the one
/// terminal result, `poll_effect`'s own precondition rules every
/// further poll out, and `poll_effect_checked` detects and refuses it.
pub proof fn lemma_terminal_finality_sync<C: Coroutine<Return = ()>>(
    pre: SyncGeneratorImpl<C>,
    post: SyncGeneratorImpl<C>,
    r: EffectResult<C::Yield, (), ()>,
)
    requires
        SyncGeneratorImpl::<C>::poll_spec(pre, post, r),
    ensures
        post.exhausted() <==> r.is_terminal(),
{
}

/// Terminal finality, stated of the asynchronous fallible generator
/// shim: the same protocol holds on the asynchronous side of the
/// cube, `Failed` included.
pub proof fn lemma_terminal_finality_async<E, C: AsyncCoroutine<Return = Result<(), E>>>(
    pre: AsyncFallibleGeneratorImpl<E, C>,
    post: AsyncFallibleGeneratorImpl<E, C>,
    r: EffectResult<C::Item, (), E>,
)
    requires
        AsyncFallibleGeneratorImpl::<E, C>::poll_spec(pre, post, r),
    ensures
        post.exhausted() <==> r.is_terminal(),
{
}

/// At most one in flight: a single poll consumes exactly one raw step
/// of the machine while any remain, and surfaces at most one produced
/// value — `poll_effect` is the only operation of a shim that takes it
/// by exclusive reference, so between two polls no call can observe or
/// advance an intermediate state.
pub proof fn lemma_at_most_one_in_flight<C: AsyncCoroutine<Return = ()>>(
    pre: AsyncGeneratorImpl<C>,
    post: AsyncGeneratorImpl<C>,
    r: EffectResult<C::Item, (), ()>,
)
    requires
        AsyncGeneratorImpl::<C>::poll_spec(pre, post, r),
    ensures
        pre.steps_left().len() > 0 ==> post.steps_left().len() == pre.steps_left().len() - 1,
        r is Produced ==> pre.steps_left().len() > 0 && pre.steps_left()[0] == PollStep::Ready(
            r.arrow_Produced_0(),
        ),
{
}

/// Drives a blocking generator shim to its terminal result, collecting
/// every produced value: the output is the machine's whole yield
/// sequence, in order, and exactly one terminal (`Finished`) follows
/// it — after which the shim is exhausted.
pub fn collect_sync<C: Coroutine<Return = ()>>(g: &mut SyncGeneratorImpl<C>) -> (out: Vec<C::Yield>)
    requires
        old(g).wf(),
        !old(g).exhausted(),
    ensures
        out@ == old(g).yields_left(),
        final(g).wf(),
        final(g).exhausted(),
    decreases old(g).yields_left().len(),
{
    match g.poll_effect() {
        EffectResult::Produced(y) => {
            let mut rest = collect_sync(g);
            let ghost pre = rest@;
            rest.insert(0, y);
            proof {
                assert(rest@.skip(1) =~= pre);
                assert(rest@ =~= old(g).yields_left());
            }
            rest
        },
        EffectResult::Finished(_) => {
            let out: Vec<C::Yield> = Vec::new();
            proof {
                assert(out@ =~= old(g).yields_left());
            }
            out
        },
        EffectResult::Suspended => vstd::pervasive::unreached(),
        EffectResult::Failed(_) => vstd::pervasive::unreached(),
    }
}

/// Drives a blocking fallible generator shim to its terminal result:
/// the produced values are the machine's yields in order, and the one
/// terminal that follows is `Finished` on a successful completion and
/// `Failed` with the error on a failing one. A machine that fails
/// before yielding anything gives exactly one `Failed` and no produced
/// value.
pub fn collect_sync_fallible<E, C: Coroutine<Return = Result<(), E>>>(
    g: &mut SyncFallibleGeneratorImpl<E, C>,
) -> (out: (Vec<C::Yield>, Result<(), E>))
    requires
        old(g).wf(),
        !old(g).exhausted(),
    ensures
        out.0@ == old(g).yields_left(),
        out.1 == old(g).outcome(),
        final(g).wf(),
        final(g).exhausted(),
    decreases old(g).yields_left().len(),
{
    match g.poll_effect() {
        EffectResult::Produced(y) => {
            let (mut items, res) = collect_sync_fallible(g);
            let ghost pre = items@;
            items.insert(0, y);
            proof {
                assert(items@.skip(1) =~= pre);
                assert(items@ =~= old(g).yields_left());
            }
            (items, res)
        },
        EffectResult::Finished(u) => {
            let items: Vec<C::Yield> = Vec::new();
            proof {
                assert(items@ =~= old(g).yields_left());
            }
            (items, Ok(u))
        },
        EffectResult::Failed(e) => {
            let items: Vec<C::Yield> = Vec::new();
            proof {
                assert(items@ =~= old(g).yields_left());
            }
            (items, Err(e))
        },
        EffectResult::Suspended => vstd::pervasive::unreached(),
    }
}

/// Drives an asynchronous generator shim to its terminal result under
/// a driver that retries immediately whenever the shim reports
/// `Suspended`: the collected output is exactly the machine's ready
/// values, in order, followed by one terminal result.
pub fn collect_async<C: AsyncCoroutine<Return = ()>>(g: &mut AsyncGeneratorImpl<C>) -> (out: Vec<
    C::Item,
>)
    requires
        old(g).wf(),
        !old(g).exhausted(),
    ensures
        out@ == ready_items(old(g).steps_left()),
        final(g).wf(),
        final(g).exhausted(),
    decreases old(g).steps_left().len(),
{
    match g.poll_effect() {
        EffectResult::Produced(y) => {
            let mut rest = collect_async(g);
            let ghost pre = rest@;
            rest.insert(0, y);
            proof {
                assert(rest@.skip(1) =~= pre);
                assert(rest@ =~= ready_items(old(g).steps_left()));
            }
            rest
        },
        EffectResult::Suspended => collect_async(g),
        EffectResult::Finished(_) => {
            let out: Vec<C::Item> = Vec::new();
            proof {
                assert(out@ =~= ready_items(old(g).steps_left()));
            }
            out
        },
        EffectResult::Failed(_) => vstd::pervasive::unreached(),
    }
}

/// Drives an asynchronous fallible generator shim to its terminal
/// result under an immediate-retry driver: the produced values are the
/// machine's ready values in order; the terminal is `Finished` on
/// success and `Failed` with the error otherwise.
pub fn collect_async_fallible<E, C: AsyncCoroutine<Return = Result<(), E>>>(
    g: &mut AsyncFallibleGeneratorImpl<E, C>,
) -> (out: (Vec<C::Item>, Result<(), E>))
    requires
        old(g).wf(),
        !old(g).exhausted(),
    ensures
        out.0@ == ready_items(old(g).steps_left()),
        out.1 == old(g).outcome(),
        final(g).wf(),
        final(g).exhausted(),
    decreases old(g).steps_left().len(),
{
    match g.poll_effect() {
        EffectResult::Produced(y) => {
            let (mut items, res) = collect_async_fallible(g);
            let ghost pre = items@;
            items.insert(0, y);
            proof {
                assert(items@.skip(1) =~= pre);
                assert(items@ =~= ready_items(old(g).steps_left()));
            }
            (items, res)
        },
        EffectResult::Suspended => collect_async_fallible(g),
        EffectResult::Finished(u) => {
            let items: Vec<C::Item> = Vec::new();
            proof {
                assert(items@ =~= ready_items(old(g).steps_left()));
            }
            (items, Ok(u))
        },
        EffectResult::Failed(e) => {
            let items: Vec<C::Item> = Vec::new();
            proof {
                assert(items@ =~= ready_items(old(g).steps_left()));
            }
            (items, Err(e))
        },
    }
}

/// Drives a single-valued asynchronous shim to completion under an
/// immediate-retry driver, returning its one value.
pub fn complete_async<C: AsyncCoroutine>(g: &mut AsyncImpl<C>) -> (r: C::Return)
    requires
        old(g).wf(),
        !old(g).exhausted(),
    ensures
        r == old(g).value(),
        final(g).wf(),
        final(g).exhausted(),
    decreases old(g).pending_left(),
{
    match g.poll_effect() {
        EffectResult::Suspended => complete_async(g),
        EffectResult::Finished(v) => v,
        EffectResult::Produced(_) => vstd::pervasive::unreached(),
        EffectResult::Failed(_) => vstd::pervasive::unreached(),
    }
}

} // verus!
