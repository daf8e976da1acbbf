//! The source form that the lowering pass works on.
//!
//! A unit of sequential code is a [`Block`] of statements. Expressions
//! carry the four suspension points (await, yield, try, effectful
//! for-loop) alongside ordinary control flow. Identifiers are interned:
//! a user-written name is `Name::User(n)`; names synthesized during
//! lowering live in their own namespace, `Name::Synth(n)`, so that a
//! synthesized binding can never capture or collide with a user name.

use vstd::prelude::*;

verus! {

/// An interned identifier. User names and synthesized names are kept in
/// disjoint namespaces, which makes hygiene of the lowering a fact of
/// the type rather than a property of a counter.
#[derive(PartialEq, Eq, Structural, Debug, Clone, Copy)]
pub enum Name {
    User(u64),
    Synth(u64),
}

/// A loop label, `'name: loop { ... }`.
#[derive(PartialEq, Eq, Structural, Debug, Clone, Copy)]
pub struct Label {
    pub name: u64,
}

/// A block of statements, run in textual order.
pub struct Block {
    pub stmts: Vec<Stmt>,
}

pub enum Stmt {
    /// An expression statement.
    Expr(Expr),
    /// `let name = init;`
    Let { name: Name, init: Expr },
    /// A nested item declaration.
    Item(Item),
}

pub enum Item {
    /// A function, module, impl, trait or macro: a boundary that neither
    /// the break scan nor the rewriter descends into, because suspension
    /// points are only meaningful in the lexical scope of their own
    /// enclosing resumable unit.
    Boundary(Block),
    /// Any other item whose body is an ordinary expression (a constant,
    /// say); scans and rewriting propagate through it as normal.
    Plain(Expr),
}

pub enum Expr {
    /// An opaque leaf computation with no subexpressions of interest.
    Atom(u64),
    /// An expression with subexpressions and no control-flow meaning of
    /// its own (a call, a tuple, an operator chain).
    Compound(Vec<Expr>),
    /// `producer.await`: suspend the enclosing unit until the producer
    /// is ready, then continue with the awaited value.
    Await(Box<Expr>),
    /// `yield value`: the enclosing unit emits one intermediate value.
    Yield(Option<Box<Expr>>),
    /// `result?`: unwrap success or terminate the whole unit with the
    /// failure payload.
    Try(Box<Expr>),
    /// A for-loop over a producer. `asynchronous` is the per-loop opt-in
    /// marker selecting the lowering over an external asynchronous
    /// producer rather than ordinary synchronous iteration.
    ForLoop { label: Option<Label>, asynchronous: bool, producer: Box<Expr>, body: Block },
    /// `loop { ... }`
    Loop { label: Option<Label>, body: Block },
    /// `while cond { ... }`
    While { label: Option<Label>, cond: Box<Expr>, body: Block },
    /// `if cond { ... } else { ... }`
    If { cond: Box<Expr>, then_branch: Block, else_branch: Block },
    /// A nested plain block.
    Block(Block),
    /// `break 'label value`
    Break { label: Option<Label>, value: Option<Box<Expr>> },
    /// A closure: a boundary that scans and rewriting do not descend
    /// into.
    Closure(Block),
}

/// Whether a `break` carrying `broken` targets a loop labelled
/// `target`: both must be labelled and the names must agree.
pub open spec fn label_targets(broken: Option<Label>, target: Option<Label>) -> bool {
    match (broken, target) {
        (Some(a), Some(b)) => a.name == b.name,
        _ => false,
    }
}

/// Executable form of [`label_targets`].
pub fn label_targets_exec(broken: &Option<Label>, target: &Option<Label>) -> (r: bool)
    ensures
        r == label_targets(*broken, *target),
{
    match (broken, target) {
        (Some(a), Some(b)) => a.name == b.name,
        _ => false,
    }
}

/// Number of nodes of an expression. The sizes below are the common
/// termination measure of every pass that walks the tree.
pub open spec fn size_expr(e: Expr) -> nat
    decreases e,
{
    match e {
        Expr::Atom(_) => 1,
        Expr::Compound(es) => 1 + size_expr_list(es@),
        Expr::Await(b) => 1 + size_expr(*b),
        Expr::Yield(v) => 1 + size_expr_opt(v),
        Expr::Try(b) => 1 + size_expr(*b),
        Expr::ForLoop { producer, body, .. } => 1 + size_expr(*producer) + size_block(body),
        Expr::Loop { body, .. } => 1 + size_block(body),
        Expr::While { cond, body, .. } => 1 + size_expr(*cond) + size_block(body),
        Expr::If { cond, then_branch, else_branch } => 1 + size_expr(*cond) + size_block(
            then_branch,
        ) + size_block(else_branch),
        Expr::Block(b) => 1 + size_block(b),
        Expr::Break { value, .. } => 1 + size_expr_opt(value),
        Expr::Closure(b) => 1 + size_block(b),
    }
}

pub open spec fn size_expr_opt(v: Option<Box<Expr>>) -> nat
    decreases v,
{
    match v {
        Some(b) => size_expr(*b),
        None => 0,
    }
}

pub open spec fn size_expr_list(s: Seq<Expr>) -> nat
    decreases s,
{
    if s.len() == 0 {
        0
    } else {
        size_expr(s[0]) + size_expr_list(s.skip(1))
    }
}

pub open spec fn size_block(b: Block) -> nat
    decreases b,
{
    1 + size_stmt_list(b.stmts@)
}

pub open spec fn size_stmt_list(s: Seq<Stmt>) -> nat
    decreases s,
{
    if s.len() == 0 {
        0
    } else {
        size_stmt(s[0]) + size_stmt_list(s.skip(1))
    }
}

pub open spec fn size_stmt(s: Stmt) -> nat
    decreases s,
{
    match s {
        Stmt::Expr(e) => 1 + size_expr(e),
        Stmt::Let { init, .. } => 1 + size_expr(init),
        Stmt::Item(i) => 1 + size_item(i),
    }
}

pub open spec fn size_item(i: Item) -> nat
    decreases i,
{
    match i {
        Item::Boundary(b) => 1 + size_block(b),
        Item::Plain(e) => 1 + size_expr(e),
    }
}

/// Peeling one element off the front of a statement list splits its
/// size accordingly.
pub proof fn lemma_size_stmt_list_unfold(s: Seq<Stmt>, i: int)
    requires
        0 <= i < s.len(),
    ensures
        size_stmt_list(s.skip(i)) == size_stmt(s[i]) + size_stmt_list(s.skip(i + 1)),
{
    assert(s.skip(i)[0] == s[i]);
    assert(s.skip(i).skip(1) =~= s.skip(i + 1));
}

/// Peeling one element off the front of an expression list splits its
/// size accordingly.
pub proof fn lemma_size_expr_list_unfold(s: Seq<Expr>, i: int)
    requires
        0 <= i < s.len(),
    ensures
        size_expr_list(s.skip(i)) == size_expr(s[i]) + size_expr_list(s.skip(i + 1)),
{
    assert(s.skip(i)[0] == s[i]);
    assert(s.skip(i).skip(1) =~= s.skip(i + 1));
}

/// Structural equality of expressions. List children are compared
/// element by element, so two trees built independently can be proved
/// equivalent.
pub open spec fn expr_eqv(a: Expr, b: Expr) -> bool
    decreases a,
{
    match (a, b) {
        (Expr::Atom(x), Expr::Atom(y)) => x == y,
        (Expr::Compound(xs), Expr::Compound(ys)) => expr_list_eqv(xs@, ys@),
        (Expr::Await(x), Expr::Await(y)) => expr_eqv(*x, *y),
        (Expr::Yield(x), Expr::Yield(y)) => expr_opt_eqv(x, y),
        (Expr::Try(x), Expr::Try(y)) => expr_eqv(*x, *y),
        (
            Expr::ForLoop { label: la, asynchronous: aa, producer: pa, body: ba },
            Expr::ForLoop { label: lb, asynchronous: ab, producer: pb, body: bb },
        ) => la == lb && aa == ab && expr_eqv(*pa, *pb) && block_eqv(ba, bb),
        (Expr::Loop { label: la, body: ba }, Expr::Loop { label: lb, body: bb }) => la == lb
            && block_eqv(ba, bb),
        (
            Expr::While { label: la, cond: ca, body: ba },
            Expr::While { label: lb, cond: cb, body: bb },
        ) => la == lb && expr_eqv(*ca, *cb) && block_eqv(ba, bb),
        (
            Expr::If { cond: ca, then_branch: ta, else_branch: ea },
            Expr::If { cond: cb, then_branch: tb, else_branch: eb },
        ) => expr_eqv(*ca, *cb) && block_eqv(ta, tb) && block_eqv(ea, eb),
        (Expr::Block(ba), Expr::Block(bb)) => block_eqv(ba, bb),
        (
            Expr::Break { label: la, value: va },
            Expr::Break { label: lb, value: vb },
        ) => la == lb && expr_opt_eqv(va, vb),
        (Expr::Closure(ba), Expr::Closure(bb)) => block_eqv(ba, bb),
        _ => false,
    }
}

pub open spec fn expr_opt_eqv(a: Option<Box<Expr>>, b: Option<Box<Expr>>) -> bool
    decreases a,
{
    match (a, b) {
        (Some(x), Some(y)) => expr_eqv(*x, *y),
        (None, None) => true,
        _ => false,
    }
}

pub open spec fn expr_list_eqv(a: Seq<Expr>, b: Seq<Expr>) -> bool
    decreases a,
{
    if a.len() == 0 {
        b.len() == 0
    } else {
        b.len() > 0 && expr_eqv(a[0], b[0]) && expr_list_eqv(a.skip(1), b.skip(1))
    }
}

pub open spec fn block_eqv(a: Block, b: Block) -> bool
    decreases a,
{
    stmt_list_eqv(a.stmts@, b.stmts@)
}

pub open spec fn stmt_list_eqv(a: Seq<Stmt>, b: Seq<Stmt>) -> bool
    decreases a,
{
    if a.len() == 0 {
        b.len() == 0
    } else {
        b.len() > 0 && stmt_eqv(a[0], b[0]) && stmt_list_eqv(a.skip(1), b.skip(1))
    }
}

pub open spec fn stmt_eqv(a: Stmt, b: Stmt) -> bool
    decreases a,
{
    match (a, b) {
        (Stmt::Expr(x), Stmt::Expr(y)) => expr_eqv(x, y),
        (Stmt::Let { name: na, init: ia }, Stmt::Let { name: nb, init: ib }) => na == nb
            && expr_eqv(ia, ib),
        (Stmt::Item(x), Stmt::Item(y)) => item_eqv(x, y),
        _ => false,
    }
}

pub open spec fn item_eqv(a: Item, b: Item) -> bool
    decreases a,
{
    match (a, b) {
        (Item::Boundary(x), Item::Boundary(y)) => block_eqv(x, y),
        (Item::Plain(x), Item::Plain(y)) => expr_eqv(x, y),
        _ => false,
    }
}

/// Structure-preserving copy of an expression.
pub fn clone_expr(e: &Expr) -> (r: Expr)
    ensures
        expr_eqv(r, *e),
    decreases size_expr(*e), 0nat,
{
    match e {
        Expr::Atom(n) => Expr::Atom(*n),
        Expr::Compound(es) => {
            proof {
                assert(es@.skip(0) =~= es@);
            }
            Expr::Compound(clone_expr_list(es, 0))
        },
        Expr::Await(b) => Expr::Await(Box::new(clone_expr(b))),
        Expr::Yield(v) => Expr::Yield(clone_expr_opt(v)),
        Expr::Try(b) => Expr::Try(Box::new(clone_expr(b))),
        Expr::ForLoop { label, asynchronous, producer, body } => Expr::ForLoop {
            label: *label,
            asynchronous: *asynchronous,
            producer: Box::new(clone_expr(producer)),
            body: clone_block(body),
        },
        Expr::Loop { label, body } => Expr::Loop { label: *label, body: clone_block(body) },
        Expr::While { label, cond, body } => Expr::While {
            label: *label,
            cond: Box::new(clone_expr(cond)),
            body: clone_block(body),
        },
        Expr::If { cond, then_branch, else_branch } => Expr::If {
            cond: Box::new(clone_expr(cond)),
            then_branch: clone_block(then_branch),
            else_branch: clone_block(else_branch),
        },
        Expr::Block(b) => Expr::Block(clone_block(b)),
        Expr::Break { label, value } => Expr::Break { label: *label, value: clone_expr_opt(value) },
        Expr::Closure(b) => Expr::Closure(clone_block(b)),
    }
}

pub fn clone_expr_opt(v: &Option<Box<Expr>>) -> (r: Option<Box<Expr>>)
    ensures
        expr_opt_eqv(r, *v),
    decreases size_expr_opt(*v), 1nat,
{
    match v {
        Some(b) => Some(Box::new(clone_expr(b))),
        None => None,
    }
}

pub fn clone_expr_list(v: &Vec<Expr>, i: usize) -> (r: Vec<Expr>)
    requires
        i <= v.len(),
    ensures
        expr_list_eqv(r@, v@.skip(i as int)),
    decreases size_expr_list(v@.skip(i as int)), 1nat,
{
    if i < v.len() {
        proof {
            lemma_size_expr_list_unfold(v@, i as int);
            lemma_size_expr_pos_ast(v@[i as int]);
        }
        let head = clone_expr(&v[i]);
        let mut rest = clone_expr_list(v, i + 1);
        let ghost pre = rest@;
        rest.insert(0, head);
        proof {
            assert(rest@[0] == head);
            assert(rest@.skip(1) =~= pre);
            assert(v@.skip(i as int)[0] == v@[i as int]);
            assert(v@.skip(i as int).skip(1) =~= v@.skip(i as int + 1));
        }
        rest
    } else {
        Vec::new()
    }
}

/// Structure-preserving copy of a block.
pub fn clone_block(b: &Block) -> (r: Block)
    ensures
        block_eqv(r, *b),
    decreases size_block(*b), 0nat,
{
    proof {
        assert(b.stmts@.skip(0) =~= b.stmts@);
    }
    let stmts = clone_stmt_list(&b.stmts, 0);
    Block { stmts }
}

pub fn clone_stmt_list(v: &Vec<Stmt>, i: usize) -> (r: Vec<Stmt>)
    requires
        i <= v.len(),
    ensures
        stmt_list_eqv(r@, v@.skip(i as int)),
    decreases size_stmt_list(v@.skip(i as int)), 1nat,
{
    if i < v.len() {
        proof {
            lemma_size_stmt_list_unfold(v@, i as int);
            lemma_size_stmt_pos_ast(v@[i as int]);
        }
        let head = clone_stmt(&v[i]);
        let mut rest = clone_stmt_list(v, i + 1);
        let ghost pre = rest@;
        rest.insert(0, head);
        proof {
            assert(rest@[0] == head);
            assert(rest@.skip(1) =~= pre);
            assert(v@.skip(i as int)[0] == v@[i as int]);
            assert(v@.skip(i as int).skip(1) =~= v@.skip(i as int + 1));
        }
        rest
    } else {
        Vec::new()
    }
}

pub fn clone_stmt(s: &Stmt) -> (r: Stmt)
    ensures
        stmt_eqv(r, *s),
    decreases size_stmt(*s), 0nat,
{
    match s {
        Stmt::Expr(e) => Stmt::Expr(clone_expr(e)),
        Stmt::Let { name, init } => Stmt::Let { name: *name, init: clone_expr(init) },
        Stmt::Item(i) => Stmt::Item(
            match i {
                Item::Boundary(b) => Item::Boundary(clone_block(b)),
                Item::Plain(e) => Item::Plain(clone_expr(e)),
            },
        ),
    }
}

proof fn lemma_size_expr_pos_ast(e: Expr)
    ensures
        size_expr(e) >= 1,
{
}

proof fn lemma_size_stmt_pos_ast(s: Stmt)
    ensures
        size_stmt(s) >= 1,
{
}

} // verus!
