//! The runtime of a lowered for-loop over a producer.
//!
//! A lowered `for` consumes its items through a nested machine: for
//! each item a fresh loop-body machine is initialized and run to its
//! own completion (or suspension) before the loop requests the next
//! item. The body reports intermediate events — `Pending` or one
//! yielded value — and ends in exactly one of three outcomes: fall
//! through to the next item (`Continue`), leave the loop with a break
//! value, or return from the whole enclosing unit. Natural exhaustion
//! of the producer and an exit via `break` are kept distinct in the
//! loop's tagged end result, a [`ForResult`].
//!
//! Two loop machines cover the two source kinds: [`ForLoop`] iterates
//! a plain synchronous sequence and never suspends on its own;
//! [`AsyncForEach`] steps an external asynchronous producer and
//! re-suspends the whole loop whenever that producer reports pending.

use vstd::prelude::*;

use crate::machine::AsyncCoroutine;
use crate::{ForResult, GenStep, PollStep};

verus! {

/// An event a loop (or loop body) reports before its end: suspension
/// on something external, or one yielded value.
#[derive(PartialEq, Eq, Debug, Clone, Copy)]
pub enum BodyStep<Y> {
    Pending,
    Yield(Y),
}

/// How one run of a loop body ends.
#[derive(PartialEq, Eq, Debug, Clone, Copy)]
pub enum LoopBodyOutcome<B, R> {
    /// Fall through to the next item.
    Continue,
    /// Leave the loop, carrying the break value.
    Break(B),
    /// Return from the whole enclosing unit.
    Return(R),
}

/// How a whole loop ends: leaving with a break-or-exhaustion result,
/// or returning from the enclosing unit.
#[derive(PartialEq, Eq, Debug, Clone, Copy)]
pub enum GenLoopEnd<B, R> {
    Break(B),
    Return(R),
}

/// One event surfaced by polling a whole loop.
#[derive(PartialEq, Eq, Debug, Clone, Copy)]
pub enum GenLoopState<Y, B, R> {
    Yield(Y),
    Return(R),
    Break(B),
}

/// One event surfaced by polling a loop body.
#[derive(PartialEq, Eq, Debug, Clone, Copy)]
pub enum GenLoopInnerState<Y, B, R> {
    Yield(Y),
    Return(R),
    Break(B),
    Continue,
}

/// A resumable loop body: initialized once per item from its context,
/// then polled. Its behavior is a function of that context alone: the
/// events it will report, in order, and the outcome it ends with.
pub trait StreamGeneratorLoopBody: Sized {
    type Ctx;

    type Yield;

    type Break;

    type Return;

    /// The events a body initialized from `ctx` will report, in order.
    spec fn steps_of(ctx: Self::Ctx) -> Seq<BodyStep<Self::Yield>>;

    /// The outcome a body initialized from `ctx` ends with.
    spec fn outcome_of(ctx: Self::Ctx) -> LoopBodyOutcome<Self::Break, Self::Return>;

    /// The state is internally consistent.
    spec fn wf(&self) -> bool;

    /// The events still to be reported.
    spec fn steps(&self) -> Seq<BodyStep<Self::Yield>>;

    /// The outcome this body will end with.
    spec fn outcome(&self) -> LoopBodyOutcome<Self::Break, Self::Return>;

    /// The body has reported its outcome; polling again is a contract
    /// violation.
    spec fn finished(&self) -> bool;

    fn init(ctx: Self::Ctx) -> (s: Self)
        ensures
            s.wf(),
            s.steps() == Self::steps_of(ctx),
            s.outcome() == Self::outcome_of(ctx),
            !s.finished(),
    ;

    /// Advances the body by exactly one event: the next step in order,
    /// or — once none are left — its outcome, after which it is
    /// finished.
    fn poll_loop_body(&mut self) -> (r: PollStep<
        GenLoopInnerState<Self::Yield, Self::Break, Self::Return>,
    >)
        requires
            old(self).wf(),
            !old(self).finished(),
        ensures
            final(self).wf(),
            old(self).steps().len() > 0 ==> {
                &&& r == (match old(self).steps()[0] {
                    BodyStep::Pending => PollStep::<
                        GenLoopInnerState<Self::Yield, Self::Break, Self::Return>,
                    >::Pending,
                    BodyStep::Yield(y) => PollStep::Ready(GenLoopInnerState::Yield(y)),
                })
                &&& final(self).steps() == old(self).steps().skip(1)
                &&& final(self).outcome() == old(self).outcome()
                &&& !final(self).finished()
            },
            old(self).steps().len() == 0 ==> {
                &&& r == PollStep::Ready(
                    match old(self).outcome() {
                        LoopBodyOutcome::Continue => GenLoopInnerState::<
                            Self::Yield,
                            Self::Break,
                            Self::Return,
                        >::Continue,
                        LoopBodyOutcome::Break(b) => GenLoopInnerState::Break(b),
                        LoopBodyOutcome::Return(x) => GenLoopInnerState::Return(x),
                    },
                )
                &&& final(self).finished()
            },
    ;
}

/// A resumable whole loop, polled the same way: intermediate events in
/// order, then exactly one end.
pub trait StreamGeneratorLoop: Sized {
    type Ctx;

    type Yield;

    type Break;

    type Return;

    /// What a context must satisfy before a loop can be built from it
    /// (a wrapped producer, say, must not already have completed).
    spec fn init_req(ctx: Self::Ctx) -> bool;

    /// The events a loop initialized from `ctx` will report, in order.
    spec fn steps_of(ctx: Self::Ctx) -> Seq<BodyStep<Self::Yield>>;

    /// The end a loop initialized from `ctx` reaches.
    spec fn end_of(ctx: Self::Ctx) -> GenLoopEnd<Self::Break, Self::Return>;

    /// The state is internally consistent.
    spec fn wf(&self) -> bool;

    /// The events still to be reported.
    spec fn steps(&self) -> Seq<BodyStep<Self::Yield>>;

    /// The end this loop will reach.
    spec fn end(&self) -> GenLoopEnd<Self::Break, Self::Return>;

    /// The loop has reported its end; polling again is a contract
    /// violation.
    spec fn finished(&self) -> bool;

    fn init(ctx: Self::Ctx) -> (s: Self)
        requires
            Self::init_req(ctx),
        ensures
            s.wf(),
            s.steps() == Self::steps_of(ctx),
            s.end() == Self::end_of(ctx),
            !s.finished(),
    ;

    /// Advances the loop by exactly one event: the next step in order,
    /// or — once none are left — its end, after which it is finished.
    fn poll_loop(&mut self) -> (r: PollStep<GenLoopState<Self::Yield, Self::Break, Self::Return>>)
        requires
            old(self).wf(),
            !old(self).finished(),
        ensures
            final(self).wf(),
            old(self).steps().len() > 0 ==> {
                &&& r == (match old(self).steps()[0] {
                    BodyStep::Pending => PollStep::<
                        GenLoopState<Self::Yield, Self::Break, Self::Return>,
                    >::Pending,
                    BodyStep::Yield(y) => PollStep::Ready(GenLoopState::Yield(y)),
                })
                &&& final(self).steps() == old(self).steps().skip(1)
                &&& final(self).end() == old(self).end()
                &&& !final(self).finished()
            },
            old(self).steps().len() == 0 ==> {
                &&& r == PollStep::Ready(
                    match old(self).end() {
                        GenLoopEnd::Break(b) => GenLoopState::<
                            Self::Yield,
                            Self::Break,
                            Self::Return,
                        >::Break(b),
                        GenLoopEnd::Return(x) => GenLoopState::Return(x),
                    },
                )
                &&& final(self).finished()
            },
    ;
}

/// The events a loop over `items` reports: each item's body events in
/// order, stopping after the first body whose outcome is not
/// `Continue`.
pub open spec fn loop_steps<Ctx, It, L: StreamGeneratorLoopBody<Ctx = (Ctx, It)>>(
    ctx: Ctx,
    items: Seq<It>,
) -> Seq<BodyStep<L::Yield>>
    decreases items.len(),
{
    if items.len() == 0 {
        Seq::empty()
    } else {
        let s = L::steps_of((ctx, items[0]));
        match L::outcome_of((ctx, items[0])) {
            LoopBodyOutcome::Continue => s + loop_steps::<Ctx, It, L>(ctx, items.skip(1)),
            _ => s,
        }
    }
}

/// The end a loop over `items` reaches: natural exhaustion gives
/// `Break(Complete(()))`; the first body that breaks gives
/// `Break(Break(value))`, never reaching exhaustion; a body that
/// returns ends the whole unit.
pub open spec fn loop_end<Ctx, It, L: StreamGeneratorLoopBody<Ctx = (Ctx, It)>>(
    ctx: Ctx,
    items: Seq<It>,
) -> GenLoopEnd<ForResult<L::Break, ()>, L::Return>
    decreases items.len(),
{
    if items.len() == 0 {
        GenLoopEnd::Break(ForResult::Complete(()))
    } else {
        match L::outcome_of((ctx, items[0])) {
            LoopBodyOutcome::Continue => loop_end::<Ctx, It, L>(ctx, items.skip(1)),
            LoopBodyOutcome::Break(b) => GenLoopEnd::Break(ForResult::Break(b)),
            LoopBodyOutcome::Return(x) => GenLoopEnd::Return(x),
        }
    }
}

enum ForLoopState<L> {
    Next,
    Inside(L),
}

/// The for-loop machine: holds the loop's context, its items, the
/// index of the item whose body runs next, and the running body if one
/// is in flight. Bodies run strictly one at a time, each to its own
/// completion or suspension, before the next item is requested.
#[verifier::reject_recursive_types(Ctx)]
#[verifier::reject_recursive_types(It)]
pub struct ForLoop<Ctx, It, L: StreamGeneratorLoopBody<Ctx = (Ctx, It)>> {
    ctx: Ctx,
    items: Vec<It>,
    idx: usize,
    inner: ForLoopState<L>,
    done: bool,
}

impl<Ctx: Copy, It: Copy, L: StreamGeneratorLoopBody<Ctx = (Ctx, It)>> ForLoop<Ctx, It, L> {
    /// Items not yet consumed: the outer component of the termination
    /// measure of `poll_loop`.
    pub closed spec fn remaining(&self) -> int {
        self.items@.len() - self.idx
    }

    /// Whether the next body still has to be initialized: the tie
    /// breaker of the termination measure of `poll_loop`.
    pub closed spec fn at_next(&self) -> int {
        if self.inner is Next {
            1
        } else {
            0
        }
    }
}

impl<Ctx: Copy, It: Copy, L: StreamGeneratorLoopBody<Ctx = (Ctx, It)>> StreamGeneratorLoop for ForLoop<
    Ctx,
    It,
    L,
> {
    type Ctx = (Ctx, Vec<It>);

    type Yield = L::Yield;

    type Break = ForResult<L::Break, ()>;

    type Return = L::Return;

    open spec fn init_req(ctx: (Ctx, Vec<It>)) -> bool {
        true
    }

    open spec fn steps_of(ctx: (Ctx, Vec<It>)) -> Seq<BodyStep<L::Yield>> {
        loop_steps::<Ctx, It, L>(ctx.0, ctx.1@)
    }

    open spec fn end_of(ctx: (Ctx, Vec<It>)) -> GenLoopEnd<ForResult<L::Break, ()>, L::Return> {
        loop_end::<Ctx, It, L>(ctx.0, ctx.1@)
    }

    closed spec fn wf(&self) -> bool {
        &&& self.idx <= self.items@.len()
        &&& match self.inner {
            ForLoopState::Next => true,
            ForLoopState::Inside(l) => l.wf() && !l.finished() && self.idx < self.items@.len(),
        }
        &&& (self.done ==> self.inner is Next)
    }

    closed spec fn steps(&self) -> Seq<BodyStep<L::Yield>> {
        match self.inner {
            ForLoopState::Next => loop_steps::<Ctx, It, L>(self.ctx, self.items@.skip(self.idx as int)),
            ForLoopState::Inside(l) => l.steps() + (match l.outcome() {
                LoopBodyOutcome::Continue => loop_steps::<Ctx, It, L>(
                    self.ctx,
                    self.items@.skip(self.idx as int + 1),
                ),
                _ => Seq::empty(),
            }),
        }
    }

    closed spec fn end(&self) -> GenLoopEnd<ForResult<L::Break, ()>, L::Return> {
        match self.inner {
            ForLoopState::Next => loop_end::<Ctx, It, L>(self.ctx, self.items@.skip(self.idx as int)),
            ForLoopState::Inside(l) => match l.outcome() {
                LoopBodyOutcome::Continue => loop_end::<Ctx, It, L>(
                    self.ctx,
                    self.items@.skip(self.idx as int + 1),
                ),
                LoopBodyOutcome::Break(b) => GenLoopEnd::Break(ForResult::Break(b)),
                LoopBodyOutcome::Return(x) => GenLoopEnd::Return(x),
            },
        }
    }

    closed spec fn finished(&self) -> bool {
        self.done
    }

    fn init(ctx: (Ctx, Vec<It>)) -> (s: Self) {
        let (c, items) = ctx;
        let s = ForLoop { ctx: c, items, idx: 0, inner: ForLoopState::Next, done: false };
        proof {
            assert(s.items@.skip(0) =~= s.items@);
        }
        s
    }

    fn poll_loop(&mut self) -> (r: PollStep<
        GenLoopState<L::Yield, ForResult<L::Break, ()>, L::Return>,
    >)
        decreases old(self).remaining(), old(self).at_next(),
    {
        match &mut self.inner {
            ForLoopState::Next => {
                if self.idx < self.items.len() {
                    proof {
                        lemma_loop_unfold::<Ctx, It, L>(self.ctx, self.items@, self.idx as int);
                    }
                    let it = self.items[self.idx];
                    let body = L::init((self.ctx, it));
                    self.inner = ForLoopState::Inside(body);
                    self.poll_loop()
                } else {
                    proof {
                        assert(self.items@.skip(self.idx as int) =~= Seq::<It>::empty());
                    }
                    self.done = true;
                    PollStep::Ready(GenLoopState::Break(ForResult::Complete(())))
                }
            },
            ForLoopState::Inside(body) => {
                let ghost pre_steps = body.steps();
                let step = body.poll_loop_body();
                let ghost rest = (match body.outcome() {
                    LoopBodyOutcome::Continue => loop_steps::<Ctx, It, L>(
                        self.ctx,
                        self.items@.skip(self.idx as int + 1),
                    ),
                    _ => Seq::empty(),
                });
                match step {
                    PollStep::Pending => {
                        proof {
                            lemma_concat_skip_head(pre_steps, rest);
                        }
                        PollStep::Pending
                    },
                    PollStep::Ready(GenLoopInnerState::Yield(y)) => {
                        proof {
                            lemma_concat_skip_head(pre_steps, rest);
                        }
                        PollStep::Ready(GenLoopState::Yield(y))
                    },
                    PollStep::Ready(GenLoopInnerState::Continue) => {
                        let n = self.items.len();
                        proof {
                            assert(self.idx < self.items@.len());
                            assert(self.idx < n);
                        }
                        self.idx = self.idx + 1;
                        self.inner = ForLoopState::Next;
                        self.poll_loop()
                    },
                    PollStep::Ready(GenLoopInnerState::Break(b)) => {
                        self.done = true;
                        self.inner = ForLoopState::Next;
                        PollStep::Ready(GenLoopState::Break(ForResult::Break(b)))
                    },
                    PollStep::Ready(GenLoopInnerState::Return(x)) => {
                        self.done = true;
                        self.inner = ForLoopState::Next;
                        PollStep::Ready(GenLoopState::Return(x))
                    },
                }
            },
        }
    }
}

/// Peeling the first item off a nonempty loop splits its events and
/// its end at that item's body.
pub proof fn lemma_loop_unfold<Ctx, It, L: StreamGeneratorLoopBody<Ctx = (Ctx, It)>>(
    ctx: Ctx,
    items: Seq<It>,
    i: int,
)
    requires
        0 <= i < items.len(),
    ensures
        loop_steps::<Ctx, It, L>(ctx, items.skip(i)) == L::steps_of((ctx, items[i])) + (match L::outcome_of(
            (ctx, items[i]),
        ) {
            LoopBodyOutcome::Continue => loop_steps::<Ctx, It, L>(ctx, items.skip(i + 1)),
            _ => Seq::<BodyStep<L::Yield>>::empty(),
        }),
        loop_end::<Ctx, It, L>(ctx, items.skip(i)) == (match L::outcome_of((ctx, items[i])) {
            LoopBodyOutcome::Continue => loop_end::<Ctx, It, L>(ctx, items.skip(i + 1)),
            LoopBodyOutcome::Break(b) => GenLoopEnd::<ForResult<L::Break, ()>, L::Return>::Break(
                ForResult::Break(b),
            ),
            LoopBodyOutcome::Return(x) => GenLoopEnd::Return(x),
        }),
{
    assert(items.skip(i)[0] == items[i]);
    assert(items.skip(i).skip(1) =~= items.skip(i + 1));
    match L::outcome_of((ctx, items[i])) {
        LoopBodyOutcome::Continue => {
            assert(loop_steps::<Ctx, It, L>(ctx, items.skip(i)) == L::steps_of((ctx, items[i]))
                + loop_steps::<Ctx, It, L>(ctx, items.skip(i).skip(1)));
        },
        _ => {
            assert(loop_steps::<Ctx, It, L>(ctx, items.skip(i)) + Seq::<
                BodyStep<L::Yield>,
            >::empty() =~= loop_steps::<Ctx, It, L>(ctx, items.skip(i)));
        },
    }
}

/// Dropping the head of the left part of a concatenation drops the
/// head of the whole, while the left part is nonempty.
pub proof fn lemma_concat_skip_head<T>(a: Seq<T>, b: Seq<T>)
    requires
        a.len() > 0,
    ensures
        (a + b)[0] == a[0],
        (a + b).skip(1) =~= a.skip(1) + b,
{
}

/// The values an event sequence yields, in order, with the `Pending`
/// events between them dropped.
pub open spec fn yields_of<Y>(s: Seq<BodyStep<Y>>) -> Seq<Y>
    decreases s.len(),
{
    if s.len() == 0 {
        Seq::empty()
    } else {
        match s[0] {
            BodyStep::Pending => yields_of(s.skip(1)),
            BodyStep::Yield(y) => seq![y] + yields_of(s.skip(1)),
        }
    }
}

/// Drives a loop to its end under a driver that retries immediately on
/// `Pending`: the collected values are exactly the loop's yields, in
/// order, and the end is the loop's one tagged end result.
pub fn run_loop<G: StreamGeneratorLoop>(g: &mut G) -> (out: (
    Vec<G::Yield>,
    GenLoopEnd<G::Break, G::Return>,
))
    requires
        old(g).wf(),
        !old(g).finished(),
    ensures
        out.0@ == yields_of(old(g).steps()),
        out.1 == old(g).end(),
        final(g).wf(),
        final(g).finished(),
    decreases old(g).steps().len(),
{
    match g.poll_loop() {
        PollStep::Pending => run_loop(g),
        PollStep::Ready(GenLoopState::Yield(y)) => {
            let (mut items, end) = run_loop(g);
            let ghost pre = items@;
            items.insert(0, y);
            proof {
                assert(items@.skip(1) =~= pre);
                assert(items@ =~= yields_of(old(g).steps()));
            }
            (items, end)
        },
        PollStep::Ready(GenLoopState::Break(b)) => {
            let items: Vec<G::Yield> = Vec::new();
            proof {
                assert(items@ =~= yields_of(old(g).steps()));
            }
            (items, GenLoopEnd::Break(b))
        },
        PollStep::Ready(GenLoopState::Return(x)) => {
            let items: Vec<G::Yield> = Vec::new();
            proof {
                assert(items@ =~= yields_of(old(g).steps()));
            }
            (items, GenLoopEnd::Return(x))
        },
    }
}

/// A loop body that yields its item unchanged and falls through: the
/// body of `for x in items { yield x }`.
pub struct PassBody<T> {
    item: Option<T>,
    fin: bool,
}

impl<T> StreamGeneratorLoopBody for PassBody<T> {
    type Ctx = ((), T);

    type Yield = T;

    type Break = ();

    type Return = ();

    open spec fn steps_of(ctx: ((), T)) -> Seq<BodyStep<T>> {
        seq![BodyStep::Yield(ctx.1)]
    }

    open spec fn outcome_of(ctx: ((), T)) -> LoopBodyOutcome<(), ()> {
        LoopBodyOutcome::Continue
    }

    closed spec fn wf(&self) -> bool {
        self.fin ==> self.item is None
    }

    closed spec fn steps(&self) -> Seq<BodyStep<T>> {
        match self.item {
            Some(t) => seq![BodyStep::Yield(t)],
            None => Seq::empty(),
        }
    }

    closed spec fn outcome(&self) -> LoopBodyOutcome<(), ()> {
        LoopBodyOutcome::Continue
    }

    closed spec fn finished(&self) -> bool {
        self.fin
    }

    fn init(ctx: ((), T)) -> (s: Self) {
        PassBody { item: Some(ctx.1), fin: false }
    }

    fn poll_loop_body(&mut self) -> (r: PollStep<GenLoopInnerState<T, (), ()>>) {
        match self.item.take() {
            Some(t) => PollStep::Ready(GenLoopInnerState::Yield(t)),
            None => {
                self.fin = true;
                PollStep::Ready(GenLoopInnerState::Continue)
            },
        }
    }
}

/// Doubling modulo the machine word.
pub open spec fn double_val(v: u32) -> u32 {
    ((2 * (v as int)) % 0x1_0000_0000) as u32
}

/// Doubles a value, wrapping on overflow.
pub fn double_exec(v: u32) -> (r: u32)
    ensures
        r == double_val(v),
{
    if v <= 0x7FFF_FFFF {
        2 * v
    } else {
        proof {
            assert((2 * (v as int)) % 0x1_0000_0000 == 2 * (v as int) - 0x1_0000_0000);
        }
        2 * (v - 0x8000_0000)
    }
}

/// A loop body that yields the doubled item and falls through: the
/// body of `for i in p { yield i * 2 }`.
pub struct DoubleBody {
    item: Option<u32>,
    fin: bool,
}

impl StreamGeneratorLoopBody for DoubleBody {
    type Ctx = ((), u32);

    type Yield = u32;

    type Break = ();

    type Return = ();

    open spec fn steps_of(ctx: ((), u32)) -> Seq<BodyStep<u32>> {
        seq![BodyStep::Yield(double_val(ctx.1))]
    }

    open spec fn outcome_of(ctx: ((), u32)) -> LoopBodyOutcome<(), ()> {
        LoopBodyOutcome::Continue
    }

    closed spec fn wf(&self) -> bool {
        self.fin ==> self.item is None
    }

    closed spec fn steps(&self) -> Seq<BodyStep<u32>> {
        match self.item {
            Some(t) => seq![BodyStep::Yield(t)],
            None => Seq::empty(),
        }
    }

    closed spec fn outcome(&self) -> LoopBodyOutcome<(), ()> {
        LoopBodyOutcome::Continue
    }

    closed spec fn finished(&self) -> bool {
        self.fin
    }

    fn init(ctx: ((), u32)) -> (s: Self) {
        DoubleBody { item: Some(double_exec(ctx.1)), fin: false }
    }

    fn poll_loop_body(&mut self) -> (r: PollStep<GenLoopInnerState<u32, (), ()>>) {
        match self.item.take() {
            Some(t) => PollStep::Ready(GenLoopInnerState::Yield(t)),
            None => {
                self.fin = true;
                PollStep::Ready(GenLoopInnerState::Continue)
            },
        }
    }
}

/// A loop body that breaks — carrying the trigger value — when its
/// item equals the trigger, and otherwise yields the item and falls
/// through: the body of `for x in items { if x == k { break k; }
/// yield x }`.
pub struct BreakOnBody {
    item: Option<u64>,
    brk: Option<u64>,
    fin: bool,
}

impl StreamGeneratorLoopBody for BreakOnBody {
    type Ctx = (u64, u64);

    type Yield = u64;

    type Break = u64;

    type Return = ();

    open spec fn steps_of(ctx: (u64, u64)) -> Seq<BodyStep<u64>> {
        if ctx.1 == ctx.0 {
            Seq::empty()
        } else {
            seq![BodyStep::Yield(ctx.1)]
        }
    }

    open spec fn outcome_of(ctx: (u64, u64)) -> LoopBodyOutcome<u64, ()> {
        if ctx.1 == ctx.0 {
            LoopBodyOutcome::Break(ctx.1)
        } else {
            LoopBodyOutcome::Continue
        }
    }

    closed spec fn wf(&self) -> bool {
        self.fin ==> self.item is None
    }

    closed spec fn steps(&self) -> Seq<BodyStep<u64>> {
        match self.item {
            Some(t) => seq![BodyStep::Yield(t)],
            None => Seq::empty(),
        }
    }

    closed spec fn outcome(&self) -> LoopBodyOutcome<u64, ()> {
        match self.brk {
            Some(b) => LoopBodyOutcome::Break(b),
            None => LoopBodyOutcome::Continue,
        }
    }

    closed spec fn finished(&self) -> bool {
        self.fin
    }

    fn init(ctx: (u64, u64)) -> (s: Self) {
        if ctx.1 == ctx.0 {
            BreakOnBody { item: None, brk: Some(ctx.1), fin: false }
        } else {
            BreakOnBody { item: Some(ctx.1), brk: None, fin: false }
        }
    }

    fn poll_loop_body(&mut self) -> (r: PollStep<GenLoopInnerState<u64, u64, ()>>) {
        match self.item.take() {
            Some(t) => PollStep::Ready(GenLoopInnerState::Yield(t)),
            None => {
                self.fin = true;
                match self.brk {
                    Some(b) => PollStep::Ready(GenLoopInnerState::Break(b)),
                    None => PollStep::Ready(GenLoopInnerState::Continue),
                }
            },
        }
    }
}

/// The events a loop over an asynchronous producer reports: the
/// producer's own pending steps surface as the loop's suspensions;
/// each delivered item contributes its body's events; the walk stops
/// after the first body whose outcome is not `Continue`.
pub open spec fn async_loop_steps<Ctx, It, L: StreamGeneratorLoopBody<Ctx = (Ctx, It)>>(
    ctx: Ctx,
    psteps: Seq<PollStep<It>>,
) -> Seq<BodyStep<L::Yield>>
    decreases psteps.len(),
{
    if psteps.len() == 0 {
        Seq::empty()
    } else {
        match psteps[0] {
            PollStep::Pending => seq![BodyStep::Pending] + async_loop_steps::<Ctx, It, L>(
                ctx,
                psteps.skip(1),
            ),
            PollStep::Ready(it) => {
                let s = L::steps_of((ctx, it));
                match L::outcome_of((ctx, it)) {
                    LoopBodyOutcome::Continue => s + async_loop_steps::<Ctx, It, L>(
                        ctx,
                        psteps.skip(1),
                    ),
                    _ => s,
                }
            },
        }
    }
}

/// The end a loop over an asynchronous producer reaches.
pub open spec fn async_loop_end<Ctx, It, L: StreamGeneratorLoopBody<Ctx = (Ctx, It)>>(
    ctx: Ctx,
    psteps: Seq<PollStep<It>>,
) -> GenLoopEnd<ForResult<L::Break, ()>, L::Return>
    decreases psteps.len(),
{
    if psteps.len() == 0 {
        GenLoopEnd::Break(ForResult::Complete(()))
    } else {
        match psteps[0] {
            PollStep::Pending => async_loop_end::<Ctx, It, L>(ctx, psteps.skip(1)),
            PollStep::Ready(it) => match L::outcome_of((ctx, it)) {
                LoopBodyOutcome::Continue => async_loop_end::<Ctx, It, L>(ctx, psteps.skip(1)),
                LoopBodyOutcome::Break(b) => GenLoopEnd::Break(ForResult::Break(b)),
                LoopBodyOutcome::Return(x) => GenLoopEnd::Return(x),
            },
        }
    }
}

/// The for-loop machine over an external asynchronous producer: the
/// producer is stepped in place of iterating a plain sequence, and
/// whenever it reports pending the whole loop suspends. This is the
/// lowering that the per-loop asynchronous marker selects.
#[verifier::reject_recursive_types(Ctx)]
pub struct AsyncForEach<Ctx, P: AsyncCoroutine<Return = ()>, L: StreamGeneratorLoopBody<
    Ctx = (Ctx, P::Item),
>> {
    ctx: Ctx,
    producer: P,
    inner: ForLoopState<L>,
    done: bool,
}

impl<
    Ctx: Copy,
    P: AsyncCoroutine<Return = ()>,
    L: StreamGeneratorLoopBody<Ctx = (Ctx, P::Item)>,
> AsyncForEach<Ctx, P, L> {
    /// Producer steps not yet consumed: the outer component of the
    /// termination measure of `poll_loop`.
    pub closed spec fn producer_left(&self) -> int {
        self.producer.steps_left().len() as int
    }

    /// Whether a body run is in flight: the tie breaker of the
    /// termination measure of `poll_loop`.
    pub closed spec fn at_inside(&self) -> int {
        if self.inner is Inside {
            1
        } else {
            0
        }
    }
}

impl<
    Ctx: Copy,
    P: AsyncCoroutine<Return = ()>,
    L: StreamGeneratorLoopBody<Ctx = (Ctx, P::Item)>,
> StreamGeneratorLoop for AsyncForEach<Ctx, P, L> {
    type Ctx = (Ctx, P);

    type Yield = L::Yield;

    type Break = ForResult<L::Break, ()>;

    type Return = L::Return;

    open spec fn init_req(ctx: (Ctx, P)) -> bool {
        !ctx.1.done()
    }

    open spec fn steps_of(ctx: (Ctx, P)) -> Seq<BodyStep<L::Yield>> {
        async_loop_steps::<Ctx, P::Item, L>(ctx.0, ctx.1.steps_left())
    }

    open spec fn end_of(ctx: (Ctx, P)) -> GenLoopEnd<ForResult<L::Break, ()>, L::Return> {
        async_loop_end::<Ctx, P::Item, L>(ctx.0, ctx.1.steps_left())
    }

    closed spec fn wf(&self) -> bool {
        &&& (!self.done ==> !self.producer.done())
        &&& match self.inner {
            ForLoopState::Next => true,
            ForLoopState::Inside(l) => l.wf() && !l.finished(),
        }
        &&& (self.done ==> self.inner is Next)
    }

    closed spec fn steps(&self) -> Seq<BodyStep<L::Yield>> {
        match self.inner {
            ForLoopState::Next => async_loop_steps::<Ctx, P::Item, L>(
                self.ctx,
                self.producer.steps_left(),
            ),
            ForLoopState::Inside(l) => l.steps() + (match l.outcome() {
                LoopBodyOutcome::Continue => async_loop_steps::<Ctx, P::Item, L>(
                    self.ctx,
                    self.producer.steps_left(),
                ),
                _ => Seq::empty(),
            }),
        }
    }

    closed spec fn end(&self) -> GenLoopEnd<ForResult<L::Break, ()>, L::Return> {
        match self.inner {
            ForLoopState::Next => async_loop_end::<Ctx, P::Item, L>(
                self.ctx,
                self.producer.steps_left(),
            ),
            ForLoopState::Inside(l) => match l.outcome() {
                LoopBodyOutcome::Continue => async_loop_end::<Ctx, P::Item, L>(
                    self.ctx,
                    self.producer.steps_left(),
                ),
                LoopBodyOutcome::Break(b) => GenLoopEnd::Break(ForResult::Break(b)),
                LoopBodyOutcome::Return(x) => GenLoopEnd::Return(x),
            },
        }
    }

    closed spec fn finished(&self) -> bool {
        self.done
    }

    fn init(ctx: (Ctx, P)) -> (s: Self) {
        let (c, producer) = ctx;
        AsyncForEach { ctx: c, producer, inner: ForLoopState::Next, done: false }
    }

    fn poll_loop(&mut self) -> (r: PollStep<
        GenLoopState<L::Yield, ForResult<L::Break, ()>, L::Return>,
    >)
        decreases old(self).producer_left(), old(self).at_inside(),
    {
        match &mut self.inner {
            ForLoopState::Next => {
                let ghost pre_psteps = self.producer.steps_left();
                match self.producer.resume() {
                    GenStep::Yielded(PollStep::Pending) => {
                        proof {
                            let rest = async_loop_steps::<Ctx, P::Item, L>(
                                self.ctx,
                                pre_psteps.skip(1),
                            );
                            lemma_concat_skip_head(seq![BodyStep::<L::Yield>::Pending], rest);
                            assert(seq![BodyStep::<L::Yield>::Pending].skip(1) + rest =~= rest);
                        }
                        PollStep::Pending
                    },
                    GenStep::Yielded(PollStep::Ready(it)) => {
                        let body = L::init((self.ctx, it));
                        self.inner = ForLoopState::Inside(body);
                        self.poll_loop()
                    },
                    GenStep::Complete(_) => {
                        self.done = true;
                        PollStep::Ready(GenLoopState::Break(ForResult::Complete(())))
                    },
                }
            },
            ForLoopState::Inside(body) => {
                let ghost pre_steps = body.steps();
                let step = body.poll_loop_body();
                let ghost rest = (match body.outcome() {
                    LoopBodyOutcome::Continue => async_loop_steps::<Ctx, P::Item, L>(
                        self.ctx,
                        self.producer.steps_left(),
                    ),
                    _ => Seq::empty(),
                });
                match step {
                    PollStep::Pending => {
                        proof {
                            lemma_concat_skip_head(pre_steps, rest);
                        }
                        PollStep::Pending
                    },
                    PollStep::Ready(GenLoopInnerState::Yield(y)) => {
                        proof {
                            lemma_concat_skip_head(pre_steps, rest);
                        }
                        PollStep::Ready(GenLoopState::Yield(y))
                    },
                    PollStep::Ready(GenLoopInnerState::Continue) => {
                        self.inner = ForLoopState::Next;
                        self.poll_loop()
                    },
                    PollStep::Ready(GenLoopInnerState::Break(b)) => {
                        self.done = true;
                        self.inner = ForLoopState::Next;
                        PollStep::Ready(GenLoopState::Break(ForResult::Break(b)))
                    },
                    PollStep::Ready(GenLoopInnerState::Return(x)) => {
                        self.done = true;
                        self.inner = ForLoopState::Next;
                        PollStep::Ready(GenLoopState::Return(x))
                    },
                }
            },
        }
    }
}

/// A loop none of whose bodies breaks or returns can only end by
/// natural exhaustion: a caller may statically assume the
/// natural-completion result.
pub proof fn lemma_no_break_completes<Ctx, It, L: StreamGeneratorLoopBody<Ctx = (Ctx, It)>>(
    ctx: Ctx,
    items: Seq<It>,
)
    requires
        forall|i: int|
            0 <= i < items.len() ==> #[trigger] L::outcome_of((ctx, items[i]))
                is Continue,
    ensures
        loop_end::<Ctx, It, L>(ctx, items) == GenLoopEnd::<ForResult<L::Break, ()>, L::Return>::Break(
            ForResult::Complete(()),
        ),
    decreases items.len(),
{
    if items.len() > 0 {
        assert(forall|i: int|
            0 <= i < items.skip(1).len() ==> items.skip(1)[i] == items[i + 1]);
        lemma_no_break_completes::<Ctx, It, L>(ctx, items.skip(1));
    }
}

/// One yielded value at the front of an event sequence is the front of
/// its yields.
pub proof fn lemma_yields_of_cons<Y>(y: Y, rest: Seq<BodyStep<Y>>)
    ensures
        yields_of(seq![BodyStep::Yield(y)] + rest) == seq![y] + yields_of(rest),
{
    let s = seq![BodyStep::Yield(y)] + rest;
    assert(s[0] == BodyStep::Yield(y));
    assert(s.skip(1) =~= rest);
}

/// Order preservation: a loop whose body passes each item through
/// yields exactly the item sequence, in its original order, and ends
/// by natural exhaustion — one terminal result, never a break.
pub proof fn lemma_order_preservation<T>(items: Seq<T>)
    ensures
        yields_of(loop_steps::<(), T, PassBody<T>>((), items)) == items,
        loop_end::<(), T, PassBody<T>>((), items) == GenLoopEnd::<ForResult<(), ()>, ()>::Break(
            ForResult::Complete(()),
        ),
    decreases items.len(),
{
    if items.len() == 0 {
        assert(yields_of(loop_steps::<(), T, PassBody<T>>((), items)) =~= items);
    } else {
        lemma_order_preservation::<T>(items.skip(1));
        lemma_yields_of_cons(items[0], loop_steps::<(), T, PassBody<T>>((), items.skip(1)));
        assert(seq![items[0]] + items.skip(1) =~= items);
    }
}

/// Nested consumption: a loop whose body yields the double of each
/// item of a producer yields exactly the doubled sequence, in order,
/// then ends by natural exhaustion.
pub proof fn lemma_nested_consumption(items: Seq<u32>)
    ensures
        yields_of(loop_steps::<(), u32, DoubleBody>((), items)) == items.map_values(
            |v: u32| double_val(v),
        ),
        loop_end::<(), u32, DoubleBody>((), items) == GenLoopEnd::<ForResult<(), ()>, ()>::Break(
            ForResult::Complete(()),
        ),
    decreases items.len(),
{
    let doubled = items.map_values(|v: u32| double_val(v));
    if items.len() == 0 {
        assert(yields_of(loop_steps::<(), u32, DoubleBody>((), items)) =~= doubled);
    } else {
        lemma_nested_consumption(items.skip(1));
        lemma_yields_of_cons(
            double_val(items[0]),
            loop_steps::<(), u32, DoubleBody>((), items.skip(1)),
        );
        assert(items.skip(1).map_values(|v: u32| double_val(v)) =~= doubled.skip(1));
        assert(seq![double_val(items[0])] + doubled.skip(1) =~= doubled);
    }
}

/// Order preservation over an asynchronous producer: with the
/// pass-through body, the loop's yields are exactly the producer's
/// ready values in the producer's order — its pending steps surface
/// only as the loop's own suspensions — and the loop ends by natural
/// exhaustion.
pub proof fn lemma_async_order_preservation<T>(psteps: Seq<PollStep<T>>)
    ensures
        yields_of(async_loop_steps::<(), T, PassBody<T>>((), psteps)) == crate::shims::ready_items(
            psteps,
        ),
        async_loop_end::<(), T, PassBody<T>>((), psteps) == GenLoopEnd::<
            ForResult<(), ()>,
            (),
        >::Break(ForResult::Complete(())),
    decreases psteps.len(),
{
    if psteps.len() == 0 {
        assert(yields_of(async_loop_steps::<(), T, PassBody<T>>((), psteps)) =~= crate::shims::ready_items(
            psteps,
        ));
    } else {
        lemma_async_order_preservation::<T>(psteps.skip(1));
        let rest = async_loop_steps::<(), T, PassBody<T>>((), psteps.skip(1));
        match psteps[0] {
            PollStep::Pending => {
                lemma_concat_skip_head(seq![BodyStep::<T>::Pending], rest);
                assert(seq![BodyStep::<T>::Pending].skip(1) + rest =~= rest);
            },
            PollStep::Ready(it) => {
                lemma_yields_of_cons(it, rest);
                assert(seq![it] + crate::shims::ready_items(psteps.skip(1))
                    =~= crate::shims::ready_items(psteps));
            },
        }
    }
}

/// Break/exhaustion distinction: a loop whose body breaks on the item
/// at position `k` — the first position holding the trigger — yields
/// exactly the items before `k`, then resolves to the break-carried
/// value; it never reaches natural exhaustion.
pub proof fn lemma_break_distinction(trigger: u64, items: Seq<u64>, k: int)
    requires
        0 <= k < items.len(),
        items[k] == trigger,
        forall|i: int| 0 <= i < k ==> items[i] != trigger,
    ensures
        yields_of(loop_steps::<u64, u64, BreakOnBody>(trigger, items)) == items.take(k),
        loop_end::<u64, u64, BreakOnBody>(trigger, items) == GenLoopEnd::<
            ForResult<u64, ()>,
            (),
        >::Break(ForResult::Break(trigger)),
    decreases k,
{
    if k == 0 {
        assert(yields_of(loop_steps::<u64, u64, BreakOnBody>(trigger, items)) =~= items.take(0));
    } else {
        assert(items.skip(1)[k - 1] == items[k]);
        assert(forall|i: int| 0 <= i < k - 1 ==> items.skip(1)[i] == items[i + 1]);
        lemma_break_distinction(trigger, items.skip(1), k - 1);
        lemma_yields_of_cons(items[0], loop_steps::<u64, u64, BreakOnBody>(trigger, items.skip(1)));
        assert(items.skip(1).take(k - 1) =~= items.take(k).skip(1));
        assert(seq![items[0]] + items.take(k).skip(1) =~= items.take(k));
    }
}

} // verus!
