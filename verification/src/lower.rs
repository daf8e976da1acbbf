//! The suspension rewriter.
//!
//! Given a block of sequential statements, the rewriter replaces every
//! suspension point with explicit control flow that expresses the same
//! intent using only ordinary branching, an explicit
//! suspend-and-return-to-caller primitive, and calls into producer
//! adapters and nested machines. The lowered form is a separate tree,
//! [`LowExpr`]: it has no awaits, yields or tries by construction, only
//! their explicit counterparts — [`LowExpr::AwaitPoint`],
//! [`LowExpr::EmitPoint`], [`LowExpr::TryPoint`] and
//! [`LowExpr::ForEachPoint`]. Closures and nested item boundaries are
//! not descended into: their suspension points belong to other units,
//! so their bodies are carried over unchanged.
//!
//! Breaks that target a lowered for-loop are rewritten to carry their
//! value wrapped, so the loop-as-expression can distinguish an exit via
//! `break` from natural exhaustion of its producer; the break/label
//! analyzer's count decides whether the loop's break exit is typed as
//! uninhabited.
//!
//! Bindings synthesized by the rewriter (the unit's context handle and
//! the per-point producer handles) all live in the `Name::Synth`
//! namespace, which no user name can reach: hygiene holds by
//! construction, with no need for randomized suffixes.

use vstd::prelude::*;

use crate::ast::{Block, Expr, Item, Label, Name, Stmt, block_eqv, clone_block, size_block,
    size_expr, size_expr_list, size_expr_opt, size_stmt, size_stmt_list,
    lemma_size_expr_list_unfold, lemma_size_stmt_list_unfold};
use crate::breaks::{ExitTy, break_count_block, exit_ty_of, exit_type, lemma_size_expr_pos,
    lemma_size_stmt_pos};
use crate::effect::ShimKind;

verus! {

/// The synthesized slot of the unit's context handle (the value a
/// suspended unit is resumed with).
pub const CX_SLOT: u64 = 0;

/// The synthesized slot binding the producer handle of one lowered
/// await.
pub const FUT_SLOT: u64 = 1;

/// The synthesized slot binding the producer handle of one lowered
/// for-loop.
pub const GEN_SLOT: u64 = 2;

/// The synthesized slot binding one stepped item of a lowered
/// for-loop.
pub const NEXT_SLOT: u64 = 3;

/// A lowered block: the same statement sequence shape as the source,
/// over lowered expressions.
pub struct LowBlock {
    pub stmts: Vec<LowStmt>,
}

pub enum LowStmt {
    Expr(LowExpr),
    Let { name: Name, init: LowExpr },
    Item(LowItem),
}

pub enum LowItem {
    /// A boundary item, carried over from the source unchanged: its
    /// interior belongs to another unit.
    Boundary(Block),
    Plain(LowExpr),
}

pub enum LowExpr {
    Atom(u64),
    Compound(Vec<LowExpr>),
    /// The explicit form of one `await`: bind the lowered producer to
    /// the synthesized handle, then loop — request its next step; while
    /// it reports not ready, suspend the whole enclosing unit and, on
    /// resumption, request again; when it reports ready, the awaited
    /// value becomes the result and control falls through.
    AwaitPoint { handle: Name, producer: Box<LowExpr> },
    /// The explicit form of one `yield`: exactly one `Produced(value)`
    /// output from a single poll, after which execution parks until the
    /// next poll resumes it here.
    EmitPoint { value: Option<Box<LowExpr>> },
    /// The explicit form of one `?`: evaluate the result; on success
    /// unwrap and continue; on failure terminate the whole enclosing
    /// unit with a `Failed` carrying the payload, skipping every
    /// remaining statement.
    TryPoint { result: Box<LowExpr> },
    /// The explicit form of one effectful for-loop: acquire a resumable
    /// handle on the lowered producer, then loop — step the producer;
    /// while it reports pending, suspend the whole enclosing unit; when
    /// it reports an item, bind it to `next` and run the body; when it
    /// reports exhaustion, exit with the natural-completion result. The
    /// `exit` field is the break/label analyzer's verdict on the
    /// loop's break-carrying result type.
    ForEachPoint {
        label: Option<Label>,
        asynchronous: bool,
        handle: Name,
        next: Name,
        producer: Box<LowExpr>,
        body: LowBlock,
        exit: ExitTy,
    },
    Loop { label: Option<Label>, body: LowBlock },
    While { label: Option<Label>, cond: Box<LowExpr>, body: LowBlock },
    If { cond: Box<LowExpr>, then_branch: LowBlock, else_branch: LowBlock },
    Block(LowBlock),
    /// A `break`; `wrapped` records that the break targets an enclosing
    /// lowered for-loop, so its value is carried through that loop's
    /// tagged exit rather than breaking out raw.
    Break { label: Option<Label>, value: Option<Box<LowExpr>>, wrapped: bool },
    /// A closure, carried over from the source unchanged.
    Closure(Block),
}

/// Whether a `break` with label `broken` targets an enclosing lowered
/// for-loop: an unlabeled break targets the innermost one when no
/// ordinary loop intervenes (`active`); a labeled break targets the
/// enclosing lowered for-loop carrying that label, from any depth.
pub open spec fn wrap_applies(broken: Option<Label>, labels: Seq<Label>, active: bool) -> bool {
    match broken {
        None => active,
        Some(l) => labels.contains(l),
    }
}

/// The labels visible to breaks inside a for-loop's body: the loop's
/// own label, if any, joins the enclosing ones.
pub open spec fn labels_push(labels: Seq<Label>, label: Option<Label>) -> Seq<Label> {
    match label {
        Some(l) => labels.push(l),
        None => labels,
    }
}

/// The lowering relation: `l` is the lowered form of `e`, under the
/// given enclosing lowered-for-loop labels and `active` flag. Each
/// suspension point maps to its explicit counterpart; everything else
/// keeps its shape with its children lowered; closures and boundary
/// items are carried over unchanged.
pub open spec fn lower_expr_rel(e: Expr, l: LowExpr, labels: Seq<Label>, active: bool) -> bool
    decreases e,
{
    match (e, l) {
        (Expr::Atom(x), LowExpr::Atom(y)) => x == y,
        (Expr::Compound(xs), LowExpr::Compound(ys)) => lower_expr_list_rel(
            xs@,
            ys@,
            labels,
            active,
        ),
        (Expr::Await(b), LowExpr::AwaitPoint { handle, producer }) => handle == Name::Synth(
            FUT_SLOT,
        ) && lower_expr_rel(*b, *producer, labels, active),
        (Expr::Yield(v), LowExpr::EmitPoint { value }) => lower_expr_opt_rel(
            v,
            value,
            labels,
            active,
        ),
        (Expr::Try(b), LowExpr::TryPoint { result }) => lower_expr_rel(
            *b,
            *result,
            labels,
            active,
        ),
        (
            Expr::ForLoop { label: la, asynchronous: aa, producer: pa, body: ba },
            LowExpr::ForEachPoint {
                label: lb,
                asynchronous: ab,
                handle,
                next,
                producer: pb,
                body: bb,
                exit,
            },
        ) => la == lb && aa == ab && handle == Name::Synth(GEN_SLOT) && next == Name::Synth(
            NEXT_SLOT,
        ) && lower_expr_rel(*pa, *pb, labels, false) && lower_block_rel(
            ba,
            bb,
            labels_push(labels, la),
            true,
        ) && exit == exit_ty_of(break_count_block(ba, la, false)),
        (Expr::Loop { label: la, body: ba }, LowExpr::Loop { label: lb, body: bb }) => la == lb
            && lower_block_rel(ba, bb, labels, false),
        (
            Expr::While { label: la, cond: ca, body: ba },
            LowExpr::While { label: lb, cond: cb, body: bb },
        ) => la == lb && lower_expr_rel(*ca, *cb, labels, false) && lower_block_rel(
            ba,
            bb,
            labels,
            false,
        ),
        (
            Expr::If { cond: ca, then_branch: ta, else_branch: ea },
            LowExpr::If { cond: cb, then_branch: tb, else_branch: eb },
        ) => lower_expr_rel(*ca, *cb, labels, active) && lower_block_rel(ta, tb, labels, active)
            && lower_block_rel(ea, eb, labels, active),
        (Expr::Block(ba), LowExpr::Block(bb)) => lower_block_rel(ba, bb, labels, active),
        (
            Expr::Break { label: la, value: va },
            LowExpr::Break { label: lb, value: vb, wrapped },
        ) => la == lb && lower_expr_opt_rel(va, vb, labels, active) && wrapped == wrap_applies(
            la,
            labels,
            active,
        ),
        (Expr::Closure(ba), LowExpr::Closure(bb)) => block_eqv(bb, ba),
        _ => false,
    }
}

pub open spec fn lower_expr_opt_rel(
    v: Option<Box<Expr>>,
    l: Option<Box<LowExpr>>,
    labels: Seq<Label>,
    active: bool,
) -> bool
    decreases v,
{
    match (v, l) {
        (Some(b), Some(p)) => lower_expr_rel(*b, *p, labels, active),
        (None, None) => true,
        _ => false,
    }
}

pub open spec fn lower_expr_list_rel(
    s: Seq<Expr>,
    l: Seq<LowExpr>,
    labels: Seq<Label>,
    active: bool,
) -> bool
    decreases s,
{
    if s.len() == 0 {
        l.len() == 0
    } else {
        l.len() > 0 && lower_expr_rel(s[0], l[0], labels, active) && lower_expr_list_rel(
            s.skip(1),
            l.skip(1),
            labels,
            active,
        )
    }
}

pub open spec fn lower_block_rel(b: Block, l: LowBlock, labels: Seq<Label>, active: bool) -> bool
    decreases b,
{
    lower_stmt_list_rel(b.stmts@, l.stmts@, labels, active)
}

pub open spec fn lower_stmt_list_rel(
    s: Seq<Stmt>,
    l: Seq<LowStmt>,
    labels: Seq<Label>,
    active: bool,
) -> bool
    decreases s,
{
    if s.len() == 0 {
        l.len() == 0
    } else {
        l.len() > 0 && lower_stmt_rel(s[0], l[0], labels, active) && lower_stmt_list_rel(
            s.skip(1),
            l.skip(1),
            labels,
            active,
        )
    }
}

pub open spec fn lower_stmt_rel(s: Stmt, l: LowStmt, labels: Seq<Label>, active: bool) -> bool
    decreases s,
{
    match (s, l) {
        (Stmt::Expr(e), LowStmt::Expr(le)) => lower_expr_rel(e, le, labels, active),
        (Stmt::Let { name: na, init: ia }, LowStmt::Let { name: nb, init: ib }) => na == nb
            && lower_expr_rel(ia, ib, labels, active),
        (Stmt::Item(i), LowStmt::Item(li)) => match (i, li) {
            (Item::Boundary(ba), LowItem::Boundary(bb)) => block_eqv(bb, ba),
            (Item::Plain(e), LowItem::Plain(le)) => lower_expr_rel(e, le, labels, active),
            _ => false,
        },
        _ => false,
    }
}

/// Whether a label list holds a label.
pub fn labels_contain(v: &Vec<Label>, l: &Label) -> (r: bool)
    ensures
        r == v@.contains(*l),
{
    let mut i: usize = 0;
    while i < v.len()
        invariant
            i <= v.len(),
            forall|j: int| 0 <= j < i ==> v@[j] != *l,
        decreases v.len() - i,
    {
        if v[i].name == l.name {
            return true;
        }
        i = i + 1;
    }
    false
}

/// Lowers one expression. `labels` and `active` describe the enclosing
/// lowered for-loops, for break rewriting; the list is restored before
/// returning.
pub fn lower_expr(e: &Expr, labels: &mut Vec<Label>, active: bool) -> (r: LowExpr)
    ensures
        final(labels)@ == old(labels)@,
        lower_expr_rel(*e, r, old(labels)@, active),
    decreases size_expr(*e), 0nat,
{
    match e {
        Expr::Atom(n) => LowExpr::Atom(*n),
        Expr::Compound(es) => {
            proof {
                assert(es@.skip(0) =~= es@);
            }
            LowExpr::Compound(lower_expr_list(es, 0, labels, active))
        },
        Expr::Await(b) => LowExpr::AwaitPoint {
            handle: Name::Synth(FUT_SLOT),
            producer: Box::new(lower_expr(b, labels, active)),
        },
        Expr::Yield(v) => LowExpr::EmitPoint { value: lower_expr_opt(v, labels, active) },
        Expr::Try(b) => LowExpr::TryPoint { result: Box::new(lower_expr(b, labels, active)) },
        Expr::ForLoop { label, asynchronous, producer, body } => {
            let low_producer = lower_expr(producer, labels, false);
            let ex = exit_type(body, label);
            let ghost base = labels@;
            match label {
                Some(l) => labels.push(*l),
                None => {},
            }
            let low_body = lower_block(body, labels, true);
            match label {
                Some(_) => {
                    let _dropped = labels.pop();
                    proof {
                        assert(labels@ =~= base);
                    }
                },
                None => {},
            }
            LowExpr::ForEachPoint {
                label: *label,
                asynchronous: *asynchronous,
                handle: Name::Synth(GEN_SLOT),
                next: Name::Synth(NEXT_SLOT),
                producer: Box::new(low_producer),
                body: low_body,
                exit: ex,
            }
        },
        Expr::Loop { label, body } => LowExpr::Loop {
            label: *label,
            body: lower_block(body, labels, false),
        },
        Expr::While { label, cond, body } => {
            let low_cond = lower_expr(cond, labels, false);
            LowExpr::While {
                label: *label,
                cond: Box::new(low_cond),
                body: lower_block(body, labels, false),
            }
        },
        Expr::If { cond, then_branch, else_branch } => {
            let low_cond = lower_expr(cond, labels, active);
            let low_then = lower_block(then_branch, labels, active);
            let low_else = lower_block(else_branch, labels, active);
            LowExpr::If {
                cond: Box::new(low_cond),
                then_branch: low_then,
                else_branch: low_else,
            }
        },
        Expr::Block(b) => LowExpr::Block(lower_block(b, labels, active)),
        Expr::Break { label, value } => {
            let low_value = lower_expr_opt(value, labels, active);
            let wrapped = match label {
                None => active,
                Some(l) => labels_contain(labels, l),
            };
            LowExpr::Break { label: *label, value: low_value, wrapped }
        },
        Expr::Closure(b) => LowExpr::Closure(clone_block(b)),
    }
}

pub fn lower_expr_opt(v: &Option<Box<Expr>>, labels: &mut Vec<Label>, active: bool) -> (r: Option<
    Box<LowExpr>,
>)
    ensures
        final(labels)@ == old(labels)@,
        lower_expr_opt_rel(*v, r, old(labels)@, active),
    decreases size_expr_opt(*v), 1nat,
{
    match v {
        Some(b) => Some(Box::new(lower_expr(b, labels, active))),
        None => None,
    }
}

pub fn lower_expr_list(v: &Vec<Expr>, i: usize, labels: &mut Vec<Label>, active: bool) -> (r: Vec<
    LowExpr,
>)
    requires
        i <= v.len(),
    ensures
        final(labels)@ == old(labels)@,
        lower_expr_list_rel(v@.skip(i as int), r@, old(labels)@, active),
    decreases size_expr_list(v@.skip(i as int)), 1nat,
{
    if i < v.len() {
        proof {
            lemma_size_expr_list_unfold(v@, i as int);
            lemma_size_expr_pos(v@[i as int]);
            assert(v@.skip(i as int)[0] == v@[i as int]);
            assert(v@.skip(i as int).skip(1) =~= v@.skip(i as int + 1));
        }
        let head = lower_expr(&v[i], labels, active);
        let mut rest = lower_expr_list(v, i + 1, labels, active);
        let ghost pre = rest@;
        rest.insert(0, head);
        proof {
            assert(rest@[0] == head);
            assert(rest@.skip(1) =~= pre);
        }
        rest
    } else {
        Vec::new()
    }
}

/// Lowers one block of statements, in textual order.
pub fn lower_block(b: &Block, labels: &mut Vec<Label>, active: bool) -> (r: LowBlock)
    ensures
        final(labels)@ == old(labels)@,
        lower_block_rel(*b, r, old(labels)@, active),
    decreases size_block(*b), 0nat,
{
    proof {
        assert(b.stmts@.skip(0) =~= b.stmts@);
    }
    LowBlock { stmts: lower_stmt_list(&b.stmts, 0, labels, active) }
}

pub fn lower_stmt_list(v: &Vec<Stmt>, i: usize, labels: &mut Vec<Label>, active: bool) -> (r: Vec<
    LowStmt,
>)
    requires
        i <= v.len(),
    ensures
        final(labels)@ == old(labels)@,
        lower_stmt_list_rel(v@.skip(i as int), r@, old(labels)@, active),
    decreases size_stmt_list(v@.skip(i as int)), 1nat,
{
    if i < v.len() {
        proof {
            lemma_size_stmt_list_unfold(v@, i as int);
            lemma_size_stmt_pos(v@[i as int]);
            assert(v@.skip(i as int)[0] == v@[i as int]);
            assert(v@.skip(i as int).skip(1) =~= v@.skip(i as int + 1));
        }
        let head = lower_stmt(&v[i], labels, active);
        let mut rest = lower_stmt_list(v, i + 1, labels, active);
        let ghost pre = rest@;
        rest.insert(0, head);
        proof {
            assert(rest@[0] == head);
            assert(rest@.skip(1) =~= pre);
        }
        rest
    } else {
        Vec::new()
    }
}

/// The rewriter's state for one unit: the unit's synthesized context
/// handle and the three capability flags that select its shim.
///
/// The context handle always lives in the synthesized namespace, so it
/// cannot capture a user name; no randomized suffix is needed to keep
/// it hygienic.
pub struct GenVisitor {
    pub cx: Name,
    pub sync: bool,
    pub yields: bool,
    pub fallible: bool,
}

/// One lowered unit, ready to be driven: the shim shape its signature
/// selected, the context handle its suspension points are resumed
/// through, and the lowered body.
pub struct LoweredUnit {
    pub shim: ShimKind,
    pub cx: Name,
    pub body: LowBlock,
}

impl GenVisitor {
    pub fn new(sync: bool, yields: bool, fallible: bool) -> (v: GenVisitor)
        ensures
            v.cx == Name::Synth(CX_SLOT),
            v.sync == sync,
            v.yields == yields,
            v.fallible == fallible,
    {
        GenVisitor { cx: Name::Synth(CX_SLOT), sync, yields, fallible }
    }

    /// Lowers a unit body and records which of the eight shims wraps
    /// it, decided by the three capability axes alone.
    pub fn into_generator(self, stmts: &Block) -> (r: LoweredUnit)
        ensures
            lower_block_rel(*stmts, r.body, Seq::<Label>::empty(), false),
            r.shim == crate::effect::shim_of_flags(self.sync, self.yields, self.fallible),
            r.cx == self.cx,
    {
        let mut labels: Vec<Label> = Vec::new();
        let body = lower_block(stmts, &mut labels, false);
        let shim = match (self.sync, self.yields, self.fallible) {
            (true, true, false) => ShimKind::SyncGenerator,
            (true, false, false) => ShimKind::SyncOnce,
            (true, true, true) => ShimKind::SyncFallibleGenerator,
            (true, false, true) => ShimKind::SyncFallibleOnce,
            (false, true, false) => ShimKind::AsyncGenerator,
            (false, false, false) => ShimKind::AsyncOnce,
            (false, true, true) => ShimKind::AsyncFallibleGenerator,
            (false, false, true) => ShimKind::AsyncFallibleOnce,
        };
        LoweredUnit { shim, cx: self.cx, body }
    }
}

pub fn lower_stmt(s: &Stmt, labels: &mut Vec<Label>, active: bool) -> (r: LowStmt)
    ensures
        final(labels)@ == old(labels)@,
        lower_stmt_rel(*s, r, old(labels)@, active),
    decreases size_stmt(*s), 0nat,
{
    match s {
        Stmt::Expr(e) => LowStmt::Expr(lower_expr(e, labels, active)),
        Stmt::Let { name, init } => LowStmt::Let {
            name: *name,
            init: lower_expr(init, labels, active),
        },
        Stmt::Item(i) => LowStmt::Item(
            match i {
                Item::Boundary(b) => LowItem::Boundary(clone_block(b)),
                Item::Plain(e) => LowItem::Plain(lower_expr(e, labels, active)),
            },
        ),
    }
}

/// No-break exit typing: the lowering types a for-loop's
/// break-carrying result as uninhabited exactly when the break/label
/// analyzer counts zero qualifying breaks in its body — the loop can
/// then never terminate via `break`, and a caller may statically
/// assume natural completion.
pub proof fn lemma_no_break_exit(
    label: Option<Label>,
    asynchronous: bool,
    producer: Box<Expr>,
    body: Block,
    l: LowExpr,
    labels: Seq<Label>,
    active: bool,
)
    requires
        lower_expr_rel(Expr::ForLoop { label, asynchronous, producer, body }, l, labels, active),
    ensures
        l matches LowExpr::ForEachPoint { exit, .. } && (exit == ExitTy::Uninhabited
            <==> break_count_block(body, label, false) == 0),
{
}

/// A fully processed unit: the interface it advertises to callers and
/// the lowered, shim-wrapped body.
pub struct ProcessedUnit {
    pub interface: crate::effect::InterfaceTy,
    pub unit: LoweredUnit,
}

impl crate::effect::AttrGenerator {
    /// The whole pipeline for one declared unit: derive and check its
    /// capability triple, build the interface it advertises, lower its
    /// body, and select its shim. Every declaration error is reported
    /// here, before any runtime behavior exists.
    pub fn process(&self) -> (r: Result<ProcessedUnit, crate::effect::DeclError>)
        ensures
            ({
                let uses = crate::effect::uses_block(self.func.body);
                if uses.has_await && !self.func.is_async {
                    r matches Err(e) && e == crate::effect::DeclError::AwaitOutsideAsync
                } else if uses.has_try && !self.fallible {
                    r matches Err(e) && e == crate::effect::DeclError::TryInInfallible
                } else {
                    r matches Ok(u) && u.interface == crate::effect::spec_interface(*self)
                        && u.unit.shim == crate::effect::shim_of(
                        crate::effect::spec_signature(*self),
                    ) && u.unit.cx == Name::Synth(CX_SLOT) && lower_block_rel(
                        self.func.body,
                        u.unit.body,
                        Seq::<Label>::empty(),
                        false,
                    )
                }
            }),
    {
        let sig = match crate::effect::classify(self) {
            Ok(s) => s,
            Err(e) => {
                return Err(e);
            },
        };
        let interface = crate::effect::unit_interface(self);
        let visitor = GenVisitor::new(sig.sync, self.yields, self.fallible);
        let unit = visitor.into_generator(&self.func.body);
        Ok(ProcessedUnit { interface, unit })
    }
}

} // verus!
