//! Producer adapters: bridges from plain sequences and scripted
//! pull-sources into the resumable-producer shape that lowered
//! for-loops consume, so the rewriter need not special-case the source
//! kind. A synchronous sequence never reports `Pending`.

use vstd::prelude::*;

use crate::machine::{AsyncCoroutine, AsyncScript, Coroutine};
use crate::{GenStep, PollStep};

verus! {

/// The producer shape of a plain synchronous sequence: yields its
/// items in order, then completes. The adapter holds nothing beyond
/// the wrapped items.
pub struct IterGenerator<T> {
    items: Vec<T>,
    live: bool,
}

impl<T> IterGenerator<T> {
    pub fn new(items: Vec<T>) -> (g: Self)
        ensures
            g.yields_left() == items@,
            !g.done(),
    {
        IterGenerator { items, live: true }
    }
}

impl<T> Coroutine for IterGenerator<T> {
    type Yield = T;

    type Return = ();

    closed spec fn done(&self) -> bool {
        !self.live
    }

    closed spec fn yields_left(&self) -> Seq<T> {
        self.items@
    }

    closed spec fn ret(&self) -> () {
        ()
    }

    fn resume(&mut self) -> (s: GenStep<T, ()>) {
        if self.items.len() > 0 {
            let y = self.items.remove(0);
            GenStep::Yielded(y)
        } else {
            self.live = false;
            GenStep::Complete(())
        }
    }
}

/// Anything that can stand as a synchronous resumable producer.
pub trait IntoSyncGenerator: Sized {
    type Yield;

    type Gen: Coroutine<Yield = Self::Yield, Return = ()>;

    /// The sequence the produced generator will yield.
    spec fn seq_view(&self) -> Seq<Self::Yield>;

    fn into_sync_generator(self) -> (g: Self::Gen)
        ensures
            g.yields_left() == self.seq_view(),
            !g.done(),
    ;
}

impl<T> IntoSyncGenerator for Vec<T> {
    type Yield = T;

    type Gen = IterGenerator<T>;

    open spec fn seq_view(&self) -> Seq<T> {
        self@
    }

    fn into_sync_generator(self) -> (g: IterGenerator<T>) {
        IterGenerator::new(self)
    }
}

/// Anything that can stand as an asynchronous resumable producer.
pub trait IntoAsyncGenerator: Sized {
    type Item;

    type Gen: AsyncCoroutine<Item = Self::Item, Return = ()>;

    /// The steps the produced generator will report.
    spec fn step_view(&self) -> Seq<PollStep<Self::Item>>;

    fn into_async_generator(self) -> (g: Self::Gen)
        ensures
            g.steps_left() == self.step_view(),
            !g.done(),
    ;
}

/// A synchronous sequence seen as an asynchronous producer: every step
/// is immediately ready; it never reports `Pending`.
impl<T> IntoAsyncGenerator for Vec<T> {
    type Item = T;

    type Gen = AsyncScript<T, ()>;

    open spec fn step_view(&self) -> Seq<PollStep<T>> {
        Seq::new(self@.len(), |i: int| PollStep::Ready(self@[i]))
    }

    fn into_async_generator(self) -> (g: AsyncScript<T, ()>) {
        let ghost orig = self@;
        let mut src = self;
        let mut steps: Vec<PollStep<T>> = Vec::new();
        while src.len() > 0
            invariant
                steps@.len() + src@.len() == orig.len(),
                forall|i: int|
                    0 <= i < steps@.len() ==> steps@[i] == PollStep::Ready(orig[i]),
                forall|j: int| 0 <= j < src@.len() ==> src@[j] == orig[steps@.len() + j],
            decreases src@.len(),
        {
            let x = src.remove(0);
            steps.push(PollStep::Ready(x));
        }
        proof {
            assert(steps@ =~= Seq::new(orig.len(), |i: int| PollStep::Ready(orig[i])));
        }
        AsyncScript::new(steps, ())
    }
}

/// The doubled image of an asynchronous producer's steps: pending
/// steps pass through, ready values are doubled.
pub open spec fn doubled_steps(s: Seq<PollStep<u32>>) -> Seq<PollStep<u32>> {
    Seq::new(
        s.len(),
        |i: int|
            match s[i] {
                PollStep::Pending => PollStep::Pending,
                PollStep::Ready(v) => PollStep::Ready(crate::loops::double_val(v)),
            },
    )
}

/// The lowered form of a consumer unit `for i in p { yield i * 2 }`
/// over an asynchronous producer: itself an asynchronous producer
/// that, one step per resume, re-suspends whenever the inner producer
/// is pending and yields the doubled value whenever it is ready.
/// Strictly pull-based: at most one item is in flight.
pub struct DoubleMachine<P: AsyncCoroutine<Item = u32, Return = ()>> {
    inner: P,
}

impl<P: AsyncCoroutine<Item = u32, Return = ()>> DoubleMachine<P> {
    pub fn new(inner: P) -> (m: Self)
        requires
            !inner.done(),
        ensures
            m.steps_left() == doubled_steps(inner.steps_left()),
            !m.done(),
    {
        DoubleMachine { inner }
    }
}

impl<P: AsyncCoroutine<Item = u32, Return = ()>> AsyncCoroutine for DoubleMachine<P> {
    type Item = u32;

    type Return = ();

    closed spec fn done(&self) -> bool {
        self.inner.done()
    }

    closed spec fn steps_left(&self) -> Seq<PollStep<u32>> {
        doubled_steps(self.inner.steps_left())
    }

    closed spec fn ret(&self) -> () {
        ()
    }

    fn resume(&mut self) -> (s: GenStep<PollStep<u32>, ()>) {
        let ghost pre = self.inner.steps_left();
        match self.inner.resume() {
            GenStep::Yielded(PollStep::Pending) => {
                proof {
                    assert(doubled_steps(self.inner.steps_left()) =~= doubled_steps(pre).skip(1));
                }
                GenStep::Yielded(PollStep::Pending)
            },
            GenStep::Yielded(PollStep::Ready(v)) => {
                proof {
                    assert(doubled_steps(self.inner.steps_left()) =~= doubled_steps(pre).skip(1));
                }
                GenStep::Yielded(PollStep::Ready(crate::loops::double_exec(v)))
            },
            GenStep::Complete(u) => GenStep::Complete(u),
        }
    }
}

/// Nested consumption over an asynchronous producer: the doubling
/// consumer delivers exactly the doubled ready values of its producer,
/// in the producer's order, suspending exactly where the producer
/// does. With the driver's contract this pins the composed pipeline:
/// collecting the doubled producer gives the doubled collection.
pub proof fn lemma_double_preserves_order(s: Seq<PollStep<u32>>)
    ensures
        crate::shims::ready_items(doubled_steps(s)) == crate::shims::ready_items(s).map_values(
            |v: u32| crate::loops::double_val(v),
        ),
    decreases s.len(),
{
    let mapped = crate::shims::ready_items(s).map_values(|v: u32| crate::loops::double_val(v));
    if s.len() == 0 {
        assert(crate::shims::ready_items(doubled_steps(s)) =~= mapped);
    } else {
        lemma_double_preserves_order(s.skip(1));
        assert(doubled_steps(s).skip(1) =~= doubled_steps(s.skip(1)));
        match s[0] {
            PollStep::Pending => {
                assert(doubled_steps(s)[0] == PollStep::<u32>::Pending);
                assert(crate::shims::ready_items(doubled_steps(s)) =~= mapped);
            },
            PollStep::Ready(v) => {
                assert(doubled_steps(s)[0] == PollStep::Ready(crate::loops::double_val(v)));
                assert(crate::shims::ready_items(s.skip(1)).map_values(
                    |x: u32| crate::loops::double_val(x),
                ) =~= mapped.skip(1));
                assert(crate::shims::ready_items(doubled_steps(s)) =~= mapped);
            },
        }
    }
}

/// The first `n` numbers of the Fibonacci sequence.
pub open spec fn fib(n: nat) -> nat
    decreases n,
{
    if n == 0 {
        0
    } else if n == 1 {
        1
    } else {
        fib((n - 2) as nat) + fib((n - 1) as nat)
    }
}

/// A Fibonacci number is bounded by the power of two of its index.
pub proof fn lemma_fib_le_pow2(n: nat)
    ensures
        fib(n) <= vstd::arithmetic::power2::pow2(n),
    decreases n,
{
    vstd::arithmetic::power2::lemma_pow2_pos(n);
    if n >= 2 {
        lemma_fib_le_pow2((n - 1) as nat);
        lemma_fib_le_pow2((n - 2) as nat);
        vstd::arithmetic::power2::lemma_pow2_unfold(n);
        vstd::arithmetic::power2::lemma_pow2_unfold((n - 1) as nat);
        vstd::arithmetic::power2::lemma_pow2_pos((n - 2) as nat);
    }
}

/// Every Fibonacci number up to the 63rd fits in a machine word.
pub proof fn lemma_fib_fits(n: nat)
    requires
        n <= 63,
    ensures
        fib(n) <= u64::MAX,
{
    lemma_fib_le_pow2(n);
    if n < 63 {
        vstd::arithmetic::power2::lemma_pow2_strictly_increases(n, 63);
    }
    vstd::arithmetic::power2::lemma2_to64_rest();
}

/// A producer of the first `n` Fibonacci numbers, as a synchronous
/// generator. The bound keeps every value inside a machine word.
pub fn fibonacii(n: usize) -> (g: IterGenerator<u64>)
    requires
        n <= 61,
    ensures
        g.yields_left().len() == n,
        forall|i: int| 0 <= i < n ==> g.yields_left()[i] as nat == fib(i as nat),
        !g.done(),
{
    let mut out: Vec<u64> = Vec::new();
    let mut a: u64 = 0;
    let mut b: u64 = 1;
    let mut i: usize = 0;
    while i < n
        invariant
            i <= n,
            n <= 61,
            out@.len() == i,
            a as nat == fib(i as nat),
            b as nat == fib(i as nat + 1),
            forall|j: int| 0 <= j < i ==> out@[j] as nat == fib(j as nat),
        decreases n - i,
    {
        proof {
            lemma_fib_fits(i as nat + 2);
            lemma_fib_le_pow2(i as nat);
            lemma_fib_le_pow2(i as nat + 1);
            assert(fib(i as nat + 2) == fib(i as nat) + fib(i as nat + 1));
            assert(a + b == fib(i as nat + 2));
        }
        out.push(a);
        let c: u64 = a + b;
        a = b;
        b = c;
        i = i + 1;
    }
    IterGenerator::new(out)
}

} // verus!
