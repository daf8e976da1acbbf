use jenner::adapters::{fibonacii, DoubleMachine, IntoAsyncGenerator, IntoSyncGenerator,
    IterGenerator};
use jenner::loops::{run_loop, AsyncForEach, BreakOnBody, DoubleBody, ForLoop, GenLoopEnd,
    PassBody, StreamGeneratorLoop};
use jenner::machine::{AsyncCoroutine, AsyncScript, Coroutine, ScriptCoroutine};
use jenner::shims::{collect_async, collect_async_fallible, collect_sync, collect_sync_fallible,
    complete_async, AsyncFallibleGeneratorImpl, AsyncGeneratorImpl, AsyncImpl,
    SyncFallibleGeneratorImpl, SyncFallibleImpl, SyncGeneratorImpl, SyncImpl};
use jenner::{EffectResult, ForResult, GenStep, PollStep};

fn countdown_steps() -> Vec<PollStep<u32>> {
    // yield 5 at once, then one timer suspension before each of 4..=0
    vec![
        PollStep::Ready(5),
        PollStep::Pending,
        PollStep::Ready(4),
        PollStep::Pending,
        PollStep::Ready(3),
        PollStep::Pending,
        PollStep::Ready(2),
        PollStep::Pending,
        PollStep::Ready(1),
        PollStep::Pending,
        PollStep::Ready(0),
    ]
}

#[test]
fn streams() {
    let countdown = AsyncScript::new(countdown_steps(), ());
    let doubled = DoubleMachine::new(countdown);
    let mut shim = AsyncGeneratorImpl::create(doubled);
    let v = collect_async(&mut shim);
    assert_eq!(v, vec![10, 8, 6, 4, 2, 0]);
    assert!(shim.poll_effect_checked().is_none());
}

#[test]
fn iterators() {
    let mut shim = SyncGeneratorImpl::create(fibonacii(10));
    let v = collect_sync(&mut shim);
    assert_eq!(v, vec![0, 1, 1, 2, 3, 5, 8, 13, 21, 34]);
}

#[test]
fn complete() {
    // a single-valued consumer unit that suspends once per timer while
    // draining the countdown, then completes
    let machine = AsyncScript::<u32, ()>::new(vec![PollStep::Pending; 5], ());
    let mut shim = AsyncImpl::create(machine);
    let v = complete_async(&mut shim);
    assert_eq!(v, ());
    assert!(shim.poll_effect_checked().is_none());
}

#[test]
fn countdown_drives_to_finished() {
    let countdown = AsyncScript::new(countdown_steps(), ());
    let mut shim = AsyncGeneratorImpl::create(countdown);
    let v = collect_async(&mut shim);
    assert_eq!(v, vec![5, 4, 3, 2, 1, 0]);
    assert!(shim.poll_effect_checked().is_none());
}

#[test]
fn fallible_short_circuit() {
    // a unit declared fails whose first operation reports a failure:
    // exactly one Failed result, no Produced results
    let machine = ScriptCoroutine::<u32, Result<(), u64>>::new(Vec::new(), Err(42));
    let mut shim = SyncFallibleGeneratorImpl::create(machine);
    let (items, res) = collect_sync_fallible(&mut shim);
    assert!(items.is_empty());
    assert_eq!(res, Err(42));
}

#[test]
fn fallible_failure_is_single_result() {
    let machine = ScriptCoroutine::<u32, Result<(), u64>>::new(Vec::new(), Err(7));
    let mut shim = SyncFallibleGeneratorImpl::create(machine);
    assert!(matches!(shim.poll_effect(), EffectResult::Failed(7)));
    assert!(shim.poll_effect_checked().is_none());
}

#[test]
fn fallible_after_yields() {
    let machine = ScriptCoroutine::<u32, Result<(), u64>>::new(vec![1, 2], Err(9));
    let mut shim = SyncFallibleGeneratorImpl::create(machine);
    let (items, res) = collect_sync_fallible(&mut shim);
    assert_eq!(items, vec![1, 2]);
    assert_eq!(res, Err(9));
}

#[test]
fn async_fallible_success() {
    let machine = AsyncScript::<u32, Result<(), u64>>::new(
        vec![PollStep::Ready(8), PollStep::Pending, PollStep::Ready(6)],
        Ok(()),
    );
    let mut shim = AsyncFallibleGeneratorImpl::create(machine);
    let (items, res) = collect_async_fallible(&mut shim);
    assert_eq!(items, vec![8, 6]);
    assert_eq!(res, Ok(()));
}

#[test]
fn terminal_finality_detected() {
    let machine = ScriptCoroutine::<u32, ()>::new(vec![1], ());
    let mut shim = SyncGeneratorImpl::create(machine);
    assert!(matches!(shim.poll_effect_checked(), Some(EffectResult::Produced(1))));
    assert!(matches!(shim.poll_effect_checked(), Some(EffectResult::Finished(()))));
    // the shim is exhausted: a further poll is a contract violation,
    // detected and refused
    assert!(shim.poll_effect_checked().is_none());
    assert!(shim.poll_effect_checked().is_none());
}

#[test]
fn sync_once_value() {
    let machine = ScriptCoroutine::<u32, u64>::new(Vec::new(), 77);
    let mut shim = SyncImpl::create(machine);
    assert!(matches!(shim.poll_effect(), EffectResult::Finished(77)));
    assert!(shim.poll_effect_checked().is_none());
}

#[test]
fn sync_fallible_once_failure() {
    let machine = ScriptCoroutine::<u32, Result<u64, u64>>::new(Vec::new(), Err(13));
    let mut shim = SyncFallibleImpl::create(machine);
    assert!(matches!(shim.poll_effect(), EffectResult::Failed(13)));
    assert!(shim.poll_effect_checked().is_none());
}

#[test]
fn order_preservation_loop() {
    // a lowered `for x in items { yield x }` reproduces the sequence in
    // order, then one terminal (natural exhaustion)
    let mut l = ForLoop::<(), u64, PassBody<u64>>::init(((), vec![4, 5, 6, 7]));
    let (items, end) = run_loop(&mut l);
    assert_eq!(items, vec![4, 5, 6, 7]);
    assert!(matches!(end, GenLoopEnd::Break(ForResult::Complete(()))));
}

#[test]
fn break_exits_early() {
    // the body breaks on the third element (1-indexed): exactly the
    // first two items come out, then the break value, never exhaustion
    let mut l = ForLoop::<u64, u64, BreakOnBody>::init((9, vec![7, 8, 9, 10]));
    let (items, end) = run_loop(&mut l);
    assert_eq!(items, vec![7, 8]);
    assert!(matches!(end, GenLoopEnd::Break(ForResult::Break(9))));
}

#[test]
fn nested_consumption_doubles() {
    // composing a producer of [a, b, c] with `for i in p { yield i * 2 }`
    let mut l = ForLoop::<(), u32, DoubleBody>::init(((), vec![1, 2, 3]));
    let (items, end) = run_loop(&mut l);
    assert_eq!(items, vec![2, 4, 6]);
    assert!(matches!(end, GenLoopEnd::Break(ForResult::Complete(()))));
}

#[test]
fn async_for_each_suspends_with_producer() {
    // a loop over an external asynchronous producer suspends exactly
    // where the producer does and passes its ready values through
    let producer = AsyncScript::new(
        vec![PollStep::Pending, PollStep::Ready(4u64), PollStep::Pending, PollStep::Ready(5)],
        (),
    );
    let mut l = AsyncForEach::<(), AsyncScript<u64, ()>, PassBody<u64>>::init(((), producer));
    let (items, end) = run_loop(&mut l);
    assert_eq!(items, vec![4, 5]);
    assert!(matches!(end, GenLoopEnd::Break(ForResult::Complete(()))));
}

#[test]
fn async_for_each_breaks_early() {
    let producer = AsyncScript::new(
        vec![
            PollStep::Ready(7u64),
            PollStep::Pending,
            PollStep::Ready(9),
            PollStep::Ready(10),
        ],
        (),
    );
    let mut l = AsyncForEach::<u64, AsyncScript<u64, ()>, BreakOnBody>::init((9, producer));
    let (items, end) = run_loop(&mut l);
    assert_eq!(items, vec![7]);
    assert!(matches!(end, GenLoopEnd::Break(ForResult::Break(9))));
}

#[test]
fn empty_loop_completes_naturally() {
    let mut l = ForLoop::<(), u64, PassBody<u64>>::init(((), Vec::new()));
    let (items, end) = run_loop(&mut l);
    assert!(items.is_empty());
    assert!(matches!(end, GenLoopEnd::Break(ForResult::Complete(()))));
}

#[test]
fn vec_as_async_producer() {
    // a synchronous sequence adapted to the asynchronous producer
    // shape never suspends and keeps its order
    let g = vec![1u64, 2, 3].into_async_generator();
    let mut shim = AsyncGeneratorImpl::create(g);
    let v = collect_async(&mut shim);
    assert_eq!(v, vec![1, 2, 3]);
}

#[test]
fn vec_as_sync_producer() {
    let g = vec![9u8, 10].into_sync_generator();
    let mut shim = SyncGeneratorImpl::create(g);
    assert_eq!(collect_sync(&mut shim), vec![9, 10]);
}

#[test]
fn iter_generator_steps() {
    let mut it = IterGenerator::new(vec![1u8]);
    assert!(matches!(it.resume(), GenStep::Yielded(1)));
    assert!(matches!(it.resume(), GenStep::Complete(())));
}

#[test]
fn double_machine_passes_pending_through() {
    let inner = AsyncScript::new(vec![PollStep::Pending, PollStep::Ready(21u32)], ());
    let mut doubled = DoubleMachine::new(inner);
    assert!(matches!(doubled.resume(), GenStep::Yielded(PollStep::Pending)));
    assert!(matches!(doubled.resume(), GenStep::Yielded(PollStep::Ready(42))));
    assert!(matches!(doubled.resume(), GenStep::Complete(())));
}

#[test]
fn sync_generator_never_suspends() {
    let machine = ScriptCoroutine::<u32, ()>::new(vec![3, 1], ());
    let mut shim = SyncGeneratorImpl::create(machine);
    loop {
        match shim.poll_effect() {
            EffectResult::Suspended => panic!("blocking shim reported Suspended"),
            EffectResult::Finished(()) => break,
            EffectResult::Produced(_) => {}
            EffectResult::Failed(_) => panic!("infallible shim reported Failed"),
        }
    }
}
