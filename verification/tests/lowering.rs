use jenner::ast::{Block, Expr, Item, Label, Name, Stmt};
use jenner::breaks::{analyze_breaks, exit_type, ExitTy};
use jenner::effect::{classify, select_shim, unit_interface, AttrGenerator, DeclError,
    EffectSignature, FailureMode, FnUnit, Multiplicity, ShimKind, Ty};
use jenner::lower::{lower_expr, GenVisitor, LowExpr, LowStmt, CX_SLOT, FUT_SLOT, GEN_SLOT};

fn block(stmts: Vec<Stmt>) -> Block {
    Block { stmts }
}

fn empty_block() -> Block {
    Block { stmts: Vec::new() }
}

fn plain_break(label: Option<Label>) -> Stmt {
    Stmt::Expr(Expr::Break { label, value: None })
}

fn unit(is_async: bool, yields: bool, fallible: bool, body: Block) -> AttrGenerator {
    AttrGenerator { func: FnUnit { is_async, ret: None, body }, yields, fallible }
}

#[test]
fn count_unlabeled_break() {
    let body = block(vec![plain_break(None), plain_break(None)]);
    let fact = analyze_breaks(&body, &None);
    assert_eq!(fact.break_count, 2);
}

#[test]
fn nested_loop_break_not_counted() {
    // an unlabeled break inside a nested loop targets that loop, not
    // the one under analysis
    let body = block(vec![Stmt::Expr(Expr::Loop {
        label: None,
        body: block(vec![plain_break(None)]),
    })]);
    let fact = analyze_breaks(&body, &None);
    assert_eq!(fact.break_count, 0);
}

#[test]
fn labeled_break_counted_through_nested_loop() {
    // a break carrying the outer loop's label counts even from inside
    // a nested loop
    let outer = Some(Label { name: 1 });
    let body = block(vec![Stmt::Expr(Expr::Loop {
        label: None,
        body: block(vec![plain_break(Some(Label { name: 1 }))]),
    })]);
    let fact = analyze_breaks(&body, &outer);
    assert_eq!(fact.break_count, 1);
}

#[test]
fn closure_breaks_ignored() {
    let body = block(vec![Stmt::Expr(Expr::Closure(block(vec![plain_break(None)])))]);
    let fact = analyze_breaks(&body, &None);
    assert_eq!(fact.break_count, 0);
}

#[test]
fn boundary_item_ignored() {
    let body = block(vec![Stmt::Item(Item::Boundary(block(vec![plain_break(None)])))]);
    let fact = analyze_breaks(&body, &None);
    assert_eq!(fact.break_count, 0);
}

#[test]
fn exit_type_policy() {
    // zero qualifying breaks: the break exit is uninhabited, and a
    // caller may statically assume natural completion; one break makes
    // it an open placeholder
    let no_breaks = block(vec![Stmt::Expr(Expr::Atom(1))]);
    assert_eq!(exit_type(&no_breaks, &None), ExitTy::Uninhabited);
    let with_break = block(vec![plain_break(None)]);
    assert_eq!(exit_type(&with_break, &None), ExitTy::Inferred);
}

#[test]
fn apply_options_sets_flags() {
    let mut gen = unit(true, false, false, empty_block());
    let opts = vec!["fails".to_string(), "yields".to_string()];
    assert!(gen.apply_effect_options(&opts).is_ok());
    assert!(gen.fallible);
    assert!(gen.yields);
}

#[test]
fn unknown_option_named() {
    let mut gen = unit(true, false, false, empty_block());
    let opts = vec!["fails".to_string(), "panics".to_string()];
    match gen.apply_effect_options(&opts) {
        Err(DeclError::UnknownOption(name)) => assert_eq!(name, "panics"),
        other => panic!("expected the unknown option to be named, got {:?}", other),
    }
    // options before the unknown one were already applied
    assert!(gen.fallible);
}

#[test]
fn classify_await_outside_async() {
    let body = block(vec![Stmt::Expr(Expr::Await(Box::new(Expr::Atom(1))))]);
    let gen = unit(false, false, false, body);
    assert_eq!(classify(&gen), Err(DeclError::AwaitOutsideAsync));
}

#[test]
fn classify_try_in_infallible() {
    let body = block(vec![Stmt::Expr(Expr::Try(Box::new(Expr::Atom(1))))]);
    let gen = unit(true, false, false, body);
    assert_eq!(classify(&gen), Err(DeclError::TryInInfallible));
}

#[test]
fn classify_signature_shape() {
    let body = block(vec![Stmt::Expr(Expr::Await(Box::new(Expr::Atom(1))))]);
    let gen = unit(true, true, false, body);
    let sig = classify(&gen).unwrap();
    assert_eq!(
        sig,
        EffectSignature {
            sync: false,
            multiplicity: Multiplicity::Multiple,
            failure: FailureMode::Infallible,
        }
    );
}

#[test]
fn shim_selection_covers_cube() {
    let shim = |sync: bool, yields: bool, fallible: bool| {
        let failure = if fallible {
            FailureMode::Fails(Ty::Unit)
        } else {
            FailureMode::Infallible
        };
        let multiplicity = if yields { Multiplicity::Multiple } else { Multiplicity::Single };
        select_shim(&EffectSignature { sync, multiplicity, failure })
    };
    assert_eq!(shim(true, true, false), ShimKind::SyncGenerator);
    assert_eq!(shim(true, false, false), ShimKind::SyncOnce);
    assert_eq!(shim(true, true, true), ShimKind::SyncFallibleGenerator);
    assert_eq!(shim(true, false, true), ShimKind::SyncFallibleOnce);
    assert_eq!(shim(false, true, false), ShimKind::AsyncGenerator);
    assert_eq!(shim(false, false, false), ShimKind::AsyncOnce);
    assert_eq!(shim(false, true, true), ShimKind::AsyncFallibleGenerator);
    assert_eq!(shim(false, false, true), ShimKind::AsyncFallibleOnce);
}

#[test]
fn interface_of_fallible_unit() {
    let mut gen = unit(true, false, true, empty_block());
    gen.func.ret = Some(Ty::Named(5));
    let it = unit_interface(&gen);
    assert_eq!(it.item, Ty::ContinueOf(Box::new(Ty::Named(5))));
    assert_eq!(it.failure, Ty::FailureWrap(Box::new(Ty::BreakOf(Box::new(Ty::Named(5))))));
    assert_eq!(it.produces, Multiplicity::Single);
}

#[test]
fn interface_of_plain_unit() {
    let gen = unit(false, true, false, empty_block());
    let it = unit_interface(&gen);
    assert_eq!(it.item, Ty::Unit);
    assert_eq!(it.failure, Ty::Never);
    assert_eq!(it.produces, Multiplicity::Multiple);
}

#[test]
fn lower_await_shape() {
    let mut labels: Vec<Label> = Vec::new();
    let low = lower_expr(&Expr::Await(Box::new(Expr::Atom(3))), &mut labels, false);
    match low {
        LowExpr::AwaitPoint { handle, producer } => {
            assert_eq!(handle, Name::Synth(FUT_SLOT));
            assert!(matches!(*producer, LowExpr::Atom(3)));
        }
        other => panic!("await did not lower to its explicit form: {:?}", discriminant(&other)),
    }
}

#[test]
fn lower_yield_shape() {
    let mut labels: Vec<Label> = Vec::new();
    let low = lower_expr(&Expr::Yield(Some(Box::new(Expr::Atom(6)))), &mut labels, false);
    match low {
        LowExpr::EmitPoint { value: Some(v) } => assert!(matches!(*v, LowExpr::Atom(6))),
        _ => panic!("yield did not lower to its explicit form"),
    }
}

#[test]
fn lower_try_shape() {
    let mut labels: Vec<Label> = Vec::new();
    let low = lower_expr(&Expr::Try(Box::new(Expr::Atom(2))), &mut labels, false);
    match low {
        LowExpr::TryPoint { result } => assert!(matches!(*result, LowExpr::Atom(2))),
        _ => panic!("try did not lower to its explicit form"),
    }
}

#[test]
fn lower_for_loop_wraps_breaks() {
    // an unlabeled break directly in the loop body targets the loop:
    // it is rewritten to carry its value through the tagged exit
    let src = Expr::ForLoop {
        label: None,
        asynchronous: true,
        producer: Box::new(Expr::Atom(1)),
        body: block(vec![plain_break(None)]),
    };
    let mut labels: Vec<Label> = Vec::new();
    let low = lower_expr(&src, &mut labels, false);
    match low {
        LowExpr::ForEachPoint { handle, body, exit, asynchronous, .. } => {
            assert_eq!(handle, Name::Synth(GEN_SLOT));
            assert!(asynchronous);
            assert_eq!(exit, ExitTy::Inferred);
            match &body.stmts[0] {
                LowStmt::Expr(LowExpr::Break { wrapped, .. }) => assert!(*wrapped),
                _ => panic!("break missing from lowered body"),
            }
        }
        _ => panic!("for-loop did not lower to its explicit form"),
    }
}

#[test]
fn lower_nested_loop_break_unwrapped() {
    // an unlabeled break inside a nested ordinary loop targets that
    // loop and stays raw
    let src = Expr::ForLoop {
        label: None,
        asynchronous: false,
        producer: Box::new(Expr::Atom(1)),
        body: block(vec![Stmt::Expr(Expr::Loop {
            label: None,
            body: block(vec![plain_break(None)]),
        })]),
    };
    let mut labels: Vec<Label> = Vec::new();
    let low = lower_expr(&src, &mut labels, false);
    match low {
        LowExpr::ForEachPoint { body, exit, .. } => {
            assert_eq!(exit, ExitTy::Uninhabited);
            match &body.stmts[0] {
                LowStmt::Expr(LowExpr::Loop { body: inner, .. }) => match &inner.stmts[0] {
                    LowStmt::Expr(LowExpr::Break { wrapped, .. }) => assert!(!*wrapped),
                    _ => panic!("break missing from nested loop"),
                },
                _ => panic!("nested loop missing from lowered body"),
            }
        }
        _ => panic!("for-loop did not lower to its explicit form"),
    }
}

#[test]
fn lower_labeled_break_wrapped_through_nested() {
    // a break labeled for the lowered for-loop is wrapped even from
    // inside a nested ordinary loop
    let lbl = Some(Label { name: 4 });
    let src = Expr::ForLoop {
        label: lbl,
        asynchronous: false,
        producer: Box::new(Expr::Atom(1)),
        body: block(vec![Stmt::Expr(Expr::Loop {
            label: None,
            body: block(vec![plain_break(Some(Label { name: 4 }))]),
        })]),
    };
    let mut labels: Vec<Label> = Vec::new();
    let low = lower_expr(&src, &mut labels, false);
    match low {
        LowExpr::ForEachPoint { body, exit, .. } => {
            assert_eq!(exit, ExitTy::Inferred);
            match &body.stmts[0] {
                LowStmt::Expr(LowExpr::Loop { body: inner, .. }) => match &inner.stmts[0] {
                    LowStmt::Expr(LowExpr::Break { wrapped, .. }) => assert!(*wrapped),
                    _ => panic!("break missing from nested loop"),
                },
                _ => panic!("nested loop missing from lowered body"),
            }
        }
        _ => panic!("for-loop did not lower to its explicit form"),
    }
}

#[test]
fn lower_closure_untouched() {
    let src = Expr::Closure(block(vec![Stmt::Expr(Expr::Yield(None))]));
    let mut labels: Vec<Label> = Vec::new();
    let low = lower_expr(&src, &mut labels, false);
    match low {
        LowExpr::Closure(b) => match &b.stmts[0] {
            Stmt::Expr(Expr::Yield(None)) => {}
            _ => panic!("closure interior was rewritten"),
        },
        _ => panic!("closure did not survive lowering"),
    }
}

#[test]
fn visitor_context_handle_is_synthesized() {
    let v = GenVisitor::new(false, true, false);
    assert_eq!(v.cx, Name::Synth(CX_SLOT));
}

#[test]
fn into_generator_selects_shim() {
    let body = block(vec![Stmt::Expr(Expr::Yield(Some(Box::new(Expr::Atom(1)))))]);
    let unit = GenVisitor::new(false, true, false).into_generator(&body);
    assert_eq!(unit.shim, ShimKind::AsyncGenerator);
    match &unit.body.stmts[0] {
        LowStmt::Expr(LowExpr::EmitPoint { .. }) => {}
        _ => panic!("yield did not lower to an emit point"),
    }
}

#[test]
fn process_pipeline() {
    let body = block(vec![Stmt::Expr(Expr::Yield(Some(Box::new(Expr::Atom(1)))))]);
    let gen = unit(true, true, false, body);
    let processed = gen.process().unwrap();
    assert_eq!(processed.unit.shim, ShimKind::AsyncGenerator);
    assert_eq!(processed.unit.cx, Name::Synth(CX_SLOT));
    assert_eq!(processed.interface.item, Ty::Unit);
    assert_eq!(processed.interface.failure, Ty::Never);
}

#[test]
fn process_reports_await_error() {
    let body = block(vec![Stmt::Expr(Expr::Await(Box::new(Expr::Atom(1))))]);
    let gen = unit(false, false, false, body);
    match gen.process() {
        Err(DeclError::AwaitOutsideAsync) => {}
        _ => panic!("an await outside an asynchronous unit must be a build-time error"),
    }
}

fn discriminant(e: &LowExpr) -> &'static str {
    match e {
        LowExpr::Atom(_) => "Atom",
        LowExpr::Compound(_) => "Compound",
        LowExpr::AwaitPoint { .. } => "AwaitPoint",
        LowExpr::EmitPoint { .. } => "EmitPoint",
        LowExpr::TryPoint { .. } => "TryPoint",
        LowExpr::ForEachPoint { .. } => "ForEachPoint",
        LowExpr::Loop { .. } => "Loop",
        LowExpr::While { .. } => "While",
        LowExpr::If { .. } => "If",
        LowExpr::Block(_) => "Block",
        LowExpr::Break { .. } => "Break",
        LowExpr::Closure(_) => "Closure",
    }
}
