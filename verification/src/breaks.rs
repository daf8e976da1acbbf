//! The break/label analyzer.
//!
//! Given a loop body and the loop's own label, this pass counts the
//! `break` statements that target that loop: those lexically reachable
//! without crossing a nested loop, a closure or an item boundary, and
//! that either carry no label (so they target the innermost enclosing
//! loop) or carry a label matching this loop's. Nested loops reset the
//! `outside` flag, so unlabeled breaks inside them do not count against
//! the outer loop, while breaks explicitly labeled for the outer loop
//! still do. The scan is pure: it rewrites nothing.
//!
//! The zero-versus-nonzero outcome alone decides the loop's exit-type
//! policy: with zero qualifying breaks the loop-as-expression can never
//! terminate via `break`, so its break-carrying result is typed as
//! uninhabited; otherwise the exit type is left open for the caller's
//! usage to resolve.

use vstd::prelude::*;

use crate::ast::{Block, Expr, Item, Label, Stmt, label_targets, label_targets_exec, size_block, size_expr, size_expr_list, size_expr_opt, size_stmt, size_stmt_list, lemma_size_expr_list_unfold, lemma_size_stmt_list_unfold};

verus! {

/// Whether one `break` statement counts against the loop under
/// analysis: it must either carry no label while standing directly in
/// the loop's own scope (`!outside`), or carry a label matching the
/// loop's label.
pub open spec fn break_qualifies(
    broken: Option<Label>,
    target: Option<Label>,
    outside: bool,
) -> bool {
    (broken is None && !outside) || label_targets(broken, target)
}

pub open spec fn break_count_expr(e: Expr, target: Option<Label>, outside: bool) -> nat
    decreases e,
{
    match e {
        Expr::Atom(_) => 0,
        Expr::Compound(es) => break_count_expr_list(es@, target, outside),
        Expr::Await(b) => break_count_expr(*b, target, outside),
        Expr::Yield(v) => break_count_expr_opt(v, target, outside),
        Expr::Try(b) => break_count_expr(*b, target, outside),
        Expr::ForLoop { producer, body, .. } => break_count_expr(*producer, target, true)
            + break_count_block(body, target, true),
        Expr::Loop { body, .. } => break_count_block(body, target, true),
        Expr::While { cond, body, .. } => break_count_expr(*cond, target, true)
            + break_count_block(body, target, true),
        Expr::If { cond, then_branch, else_branch } => break_count_expr(*cond, target, outside)
            + break_count_block(then_branch, target, outside) + break_count_block(
            else_branch,
            target,
            outside,
        ),
        Expr::Block(b) => break_count_block(b, target, outside),
        Expr::Break { label, value } => (if break_qualifies(label, target, outside) {
            1nat
        } else {
            0nat
        }) + break_count_expr_opt(value, target, outside),
        Expr::Closure(_) => 0,
    }
}

pub open spec fn break_count_expr_opt(v: Option<Box<Expr>>, target: Option<Label>, outside: bool) -> nat
    decreases v,
{
    match v {
        Some(b) => break_count_expr(*b, target, outside),
        None => 0,
    }
}

pub open spec fn break_count_expr_list(s: Seq<Expr>, target: Option<Label>, outside: bool) -> nat
    decreases s,
{
    if s.len() == 0 {
        0
    } else {
        break_count_expr(s[0], target, outside) + break_count_expr_list(s.skip(1), target, outside)
    }
}

pub open spec fn break_count_block(b: Block, target: Option<Label>, outside: bool) -> nat
    decreases b,
{
    break_count_stmt_list(b.stmts@, target, outside)
}

pub open spec fn break_count_stmt_list(s: Seq<Stmt>, target: Option<Label>, outside: bool) -> nat
    decreases s,
{
    if s.len() == 0 {
        0
    } else {
        break_count_stmt(s[0], target, outside) + break_count_stmt_list(s.skip(1), target, outside)
    }
}

pub open spec fn break_count_stmt(s: Stmt, target: Option<Label>, outside: bool) -> nat
    decreases s,
{
    match s {
        Stmt::Expr(e) => break_count_expr(e, target, outside),
        Stmt::Let { init, .. } => break_count_expr(init, target, outside),
        Stmt::Item(i) => break_count_item(i, target, outside),
    }
}

pub open spec fn break_count_item(i: Item, target: Option<Label>, outside: bool) -> nat
    decreases i,
{
    match i {
        Item::Boundary(_) => 0,
        Item::Plain(e) => break_count_expr(e, target, outside),
    }
}

/// A mathematical count clamped to what a machine word holds.
pub open spec fn sat(k: nat) -> u64 {
    if k > u64::MAX {
        u64::MAX
    } else {
        k as u64
    }
}

/// Saturating addition, exact with respect to [`sat`].
pub fn sat_add(a: u64, b: u64) -> (r: u64)
    ensures
        r == sat((a + b) as nat),
{
    if a <= u64::MAX - b {
        a + b
    } else {
        u64::MAX
    }
}

/// The scan state: the label of the loop under analysis, whether the
/// walk has crossed into a nested loop, and the breaks counted so far
/// (clamped to `u64::MAX`).
pub struct BreakVisitor {
    pub label: Option<Label>,
    pub outside: bool,
    pub breaks: u64,
}

impl BreakVisitor {
    pub fn new(label: Option<Label>) -> (v: BreakVisitor)
        ensures
            v.label == label,
            !v.outside,
            v.breaks == 0,
    {
        BreakVisitor { label, outside: false, breaks: 0 }
    }

    pub fn visit_expr(&mut self, e: &Expr)
        ensures
            final(self).label == old(self).label,
            final(self).outside == old(self).outside,
            final(self).breaks == sat(
                (old(self).breaks + break_count_expr(*e, old(self).label, old(self).outside)) as nat,
            ),
        decreases size_expr(*e), 0nat,
    {
        match e {
            Expr::Atom(_) => {},
            Expr::Compound(es) => {
                proof {
                    assert(es@.skip(0) =~= es@);
                }
                self.visit_expr_list(es, 0);
            },
            Expr::Await(b) => {
                self.visit_expr(b);
            },
            Expr::Yield(v) => {
                self.visit_expr_opt(v);
            },
            Expr::Try(b) => {
                self.visit_expr(b);
            },
            Expr::ForLoop { producer, body, .. } => {
                let store = self.outside;
                self.outside = true;
                self.visit_expr(producer);
                self.visit_block(body);
                self.outside = store;
                proof {
                    lemma_sat_shift(
                        (old(self).breaks + break_count_expr(
                            **producer,
                            old(self).label,
                            true,
                        )) as nat,
                        break_count_block(*body, old(self).label, true),
                    );
                }
            },
            Expr::Loop { body, .. } => {
                let store = self.outside;
                self.outside = true;
                self.visit_block(body);
                self.outside = store;
            },
            Expr::While { cond, body, .. } => {
                let store = self.outside;
                self.outside = true;
                self.visit_expr(cond);
                self.visit_block(body);
                self.outside = store;
                proof {
                    lemma_sat_shift(
                        (old(self).breaks + break_count_expr(**cond, old(self).label, true)) as nat,
                        break_count_block(*body, old(self).label, true),
                    );
                }
            },
            Expr::If { cond, then_branch, else_branch } => {
                self.visit_expr(cond);
                self.visit_block(then_branch);
                self.visit_block(else_branch);
                proof {
                    let target = old(self).label;
                    let outside = old(self).outside;
                    lemma_sat_shift(
                        (old(self).breaks + break_count_expr(**cond, target, outside)) as nat,
                        break_count_block(*then_branch, target, outside),
                    );
                    lemma_sat_shift(
                        (old(self).breaks + break_count_expr(**cond, target, outside)
                            + break_count_block(*then_branch, target, outside)) as nat,
                        break_count_block(*else_branch, target, outside),
                    );
                }
            },
            Expr::Block(b) => {
                self.visit_block(b);
            },
            Expr::Break { label, value } => {
                self.visit_expr_opt(value);
                let unlabeled_inside = label.is_none() && !self.outside;
                if unlabeled_inside || label_targets_exec(label, &self.label) {
                    self.breaks = sat_add(self.breaks, 1);
                    proof {
                        lemma_sat_shift(
                            (old(self).breaks + break_count_expr_opt(
                                *value,
                                old(self).label,
                                old(self).outside,
                            )) as nat,
                            1,
                        );
                    }
                }
            },
            Expr::Closure(_) => {},
        }
    }

    pub fn visit_expr_opt(&mut self, v: &Option<Box<Expr>>)
        ensures
            final(self).label == old(self).label,
            final(self).outside == old(self).outside,
            final(self).breaks == sat(
                (old(self).breaks + break_count_expr_opt(
                    *v,
                    old(self).label,
                    old(self).outside,
                )) as nat,
            ),
        decreases size_expr_opt(*v), 1nat,
    {
        match v {
            Some(b) => {
                self.visit_expr(b);
            },
            None => {},
        }
    }

    pub fn visit_expr_list(&mut self, v: &Vec<Expr>, i: usize)
        requires
            i <= v.len(),
        ensures
            final(self).label == old(self).label,
            final(self).outside == old(self).outside,
            final(self).breaks == sat(
                (old(self).breaks + break_count_expr_list(
                    v@.skip(i as int),
                    old(self).label,
                    old(self).outside,
                )) as nat,
            ),
        decreases size_expr_list(v@.skip(i as int)), 1nat,
    {
        if i < v.len() {
            proof {
                lemma_size_expr_list_unfold(v@, i as int);
                assert(size_expr(v@[i as int]) >= 1) by {
                    lemma_size_expr_pos(v@[i as int]);
                };
                assert(v@.skip(i as int)[0] == v@[i as int]);
                assert(v@.skip(i as int).skip(1) =~= v@.skip(i as int + 1));
            }
            self.visit_expr(&v[i]);
            self.visit_expr_list(v, i + 1);
            proof {
                lemma_sat_shift(
                    (old(self).breaks + break_count_expr(
                        v@[i as int],
                        old(self).label,
                        old(self).outside,
                    )) as nat,
                    break_count_expr_list(
                        v@.skip(i as int + 1),
                        old(self).label,
                        old(self).outside,
                    ),
                );
            }
        }
    }

    pub fn visit_block(&mut self, b: &Block)
        ensures
            final(self).label == old(self).label,
            final(self).outside == old(self).outside,
            final(self).breaks == sat(
                (old(self).breaks + break_count_block(
                    *b,
                    old(self).label,
                    old(self).outside,
                )) as nat,
            ),
        decreases size_block(*b), 0nat,
    {
        proof {
            assert(b.stmts@.skip(0) =~= b.stmts@);
        }
        self.visit_stmt_list(&b.stmts, 0);
    }

    pub fn visit_stmt_list(&mut self, v: &Vec<Stmt>, i: usize)
        requires
            i <= v.len(),
        ensures
            final(self).label == old(self).label,
            final(self).outside == old(self).outside,
            final(self).breaks == sat(
                (old(self).breaks + break_count_stmt_list(
                    v@.skip(i as int),
                    old(self).label,
                    old(self).outside,
                )) as nat,
            ),
        decreases size_stmt_list(v@.skip(i as int)), 1nat,
    {
        if i < v.len() {
            proof {
                lemma_size_stmt_list_unfold(v@, i as int);
                assert(size_stmt(v@[i as int]) >= 1) by {
                    lemma_size_stmt_pos(v@[i as int]);
                };
                assert(v@.skip(i as int)[0] == v@[i as int]);
                assert(v@.skip(i as int).skip(1) =~= v@.skip(i as int + 1));
            }
            self.visit_stmt(&v[i]);
            self.visit_stmt_list(v, i + 1);
            proof {
                lemma_sat_shift(
                    (old(self).breaks + break_count_stmt(
                        v@[i as int],
                        old(self).label,
                        old(self).outside,
                    )) as nat,
                    break_count_stmt_list(
                        v@.skip(i as int + 1),
                        old(self).label,
                        old(self).outside,
                    ),
                );
            }
        }
    }

    pub fn visit_stmt(&mut self, s: &Stmt)
        ensures
            final(self).label == old(self).label,
            final(self).outside == old(self).outside,
            final(self).breaks == sat(
                (old(self).breaks + break_count_stmt(
                    *s,
                    old(self).label,
                    old(self).outside,
                )) as nat,
            ),
        decreases size_stmt(*s), 0nat,
    {
        match s {
            Stmt::Expr(e) => {
                self.visit_expr(e);
            },
            Stmt::Let { init, .. } => {
                self.visit_expr(init);
            },
            Stmt::Item(i) => {
                match i {
                    Item::Boundary(_) => {},
                    Item::Plain(e) => {
                        self.visit_expr(e);
                    },
                }
            },
        }
    }
}

/// Clamping an accumulator before adding more is the same as clamping
/// once at the end.
pub proof fn lemma_sat_shift(x: nat, y: nat)
    ensures
        sat((sat(x) + y) as nat) == sat((x + y) as nat),
{
}

pub proof fn lemma_size_expr_pos(e: Expr)
    ensures
        size_expr(e) >= 1,
{
}

pub proof fn lemma_size_stmt_pos(s: Stmt)
    ensures
        size_stmt(s) >= 1,
{
}

/// The break-arity fact of one loop: its label and the count of
/// qualifying breaks (clamped to a machine word; only zero versus
/// nonzero drives any later decision).
pub struct LoopBreakFact {
    pub label: Option<Label>,
    pub break_count: u64,
}

/// The exit-type policy a loop's break fact decides: with zero
/// qualifying breaks the break-carrying result of the loop is
/// uninhabited, so callers may statically assume natural completion;
/// otherwise the exit type is an open placeholder resolved by the
/// surrounding expression's usage.
#[derive(PartialEq, Eq, Structural, Debug, Clone, Copy)]
pub enum ExitTy {
    Uninhabited,
    Inferred,
}

pub open spec fn exit_ty_of(count: nat) -> ExitTy {
    if count == 0 {
        ExitTy::Uninhabited
    } else {
        ExitTy::Inferred
    }
}

/// Runs the analyzer over one loop body. Pure and total: no failure
/// mode, and nothing is rewritten.
pub fn analyze_breaks(body: &Block, label: &Option<Label>) -> (f: LoopBreakFact)
    ensures
        f.label == *label,
        f.break_count == sat(break_count_block(*body, *label, false)),
        (f.break_count == 0) <==> (break_count_block(*body, *label, false) == 0),
{
    let mut v = BreakVisitor::new(*label);
    v.visit_block(body);
    LoopBreakFact { label: *label, break_count: v.breaks }
}

/// The exit-type decision for a loop body: uninhabited exactly when the
/// body has no qualifying break.
pub fn exit_type(body: &Block, label: &Option<Label>) -> (t: ExitTy)
    ensures
        t == exit_ty_of(break_count_block(*body, *label, false)),
        t == ExitTy::Uninhabited <==> break_count_block(*body, *label, false) == 0,
{
    let f = analyze_breaks(body, label);
    if f.break_count == 0 {
        ExitTy::Uninhabited
    } else {
        ExitTy::Inferred
    }
}

} // verus!
