//! The effect classifier.
//!
//! A unit of code declares its capabilities: `fails` (it may terminate
//! with a `Failed` result), `yields` (it may produce more than one
//! intermediate value), and the async marker on the unit itself. The
//! classifier derives the capability triple — {blocking, asynchronous}
//! × {single, multiple} × {infallible, fallible} — checks it against
//! the body's own use of suspension points, and selects which of the
//! eight runtime shims the lowered block is wrapped in.
//!
//! Every inconsistency is a build-time error, reported before any
//! runtime behavior exists: an unrecognized option is named, an `await`
//! in a unit not declared asynchronous is refused, and a `?` in a unit
//! declared infallible is refused. Nothing is silently coerced.

use vstd::prelude::*;

use crate::ast::{Block, Expr, Item, Stmt, size_block, size_expr, size_expr_list, size_expr_opt,
    size_stmt, size_stmt_list, lemma_size_expr_list_unfold, lemma_size_stmt_list_unfold};
use crate::breaks::{lemma_size_expr_pos, lemma_size_stmt_pos};

verus! {

/// Whether a unit produces one value or many.
#[derive(PartialEq, Eq, Structural, Debug, Clone, Copy)]
pub enum Multiplicity {
    Single,
    Multiple,
}

/// Whether a unit runs to completion in one call or suspends.
#[derive(PartialEq, Eq, Structural, Debug, Clone, Copy)]
pub enum Asyncness {
    Blocking,
    Async,
}

/// A type expression of the host language, as far as the classifier
/// needs to speak of it: the advertised interface of a fallible unit
/// splits its declared return type into a success part and a failure
/// part.
#[derive(PartialEq, Eq, Debug)]
pub enum Ty {
    /// The empty tuple.
    Unit,
    /// An interned, otherwise opaque type name.
    Named(u64),
    /// The success half of a fallible return type.
    ContinueOf(Box<Ty>),
    /// The failure half of a fallible return type.
    BreakOf(Box<Ty>),
    /// The failure wrapper that the polling protocol carries errors in.
    FailureWrap(Box<Ty>),
    /// The uninhabited failure type of an infallible unit.
    Never,
}

/// How a unit may fail: not at all, or with the given error type.
#[derive(PartialEq, Eq, Debug)]
pub enum FailureMode {
    Infallible,
    Fails(Ty),
}

/// The capability triple of one lowered unit. Once fixed, every
/// suspension point inside the unit must be compatible with it.
#[derive(PartialEq, Eq, Debug)]
pub struct EffectSignature {
    pub sync: bool,
    pub multiplicity: Multiplicity,
    pub failure: FailureMode,
}

/// The eight shim shapes, one per point of the capability cube.
#[derive(PartialEq, Eq, Structural, Debug, Clone, Copy)]
pub enum ShimKind {
    SyncGenerator,
    SyncOnce,
    SyncFallibleGenerator,
    SyncFallibleOnce,
    AsyncGenerator,
    AsyncOnce,
    AsyncFallibleGenerator,
    AsyncFallibleOnce,
}

/// The declared surface of one unit: its async marker, its declared
/// return type (absent means the unit returns the empty tuple), and its
/// body.
pub struct FnUnit {
    pub is_async: bool,
    pub ret: Option<Ty>,
    pub body: Block,
}

/// A unit together with the capability options its declaration named.
pub struct AttrGenerator {
    pub func: FnUnit,
    pub yields: bool,
    pub fallible: bool,
}

/// A declaration error: reported at build time, never deferred to
/// execution.
#[derive(PartialEq, Eq, Debug)]
pub enum DeclError {
    /// A capability option outside the recognized set, named.
    UnknownOption(String),
    /// An `await` inside a unit not declared asynchronous.
    AwaitOutsideAsync,
    /// A `?` inside a unit declared infallible.
    TryInInfallible,
}

/// Which suspension points a body uses, within the unit's own lexical
/// scope: closures and item boundaries are not descended into, because
/// their suspension points belong to other units.
#[derive(PartialEq, Eq, Structural, Debug, Clone, Copy)]
pub struct UnitUses {
    pub has_await: bool,
    pub has_try: bool,
}

pub open spec fn uses_union(a: UnitUses, b: UnitUses) -> UnitUses {
    UnitUses { has_await: a.has_await || b.has_await, has_try: a.has_try || b.has_try }
}

pub open spec fn uses_none() -> UnitUses {
    UnitUses { has_await: false, has_try: false }
}

pub open spec fn uses_expr(e: Expr) -> UnitUses
    decreases e,
{
    match e {
        Expr::Atom(_) => uses_none(),
        Expr::Compound(es) => uses_expr_list(es@),
        Expr::Await(b) => UnitUses { has_await: true, ..uses_expr(*b) },
        Expr::Yield(v) => uses_expr_opt(v),
        Expr::Try(b) => UnitUses { has_try: true, ..uses_expr(*b) },
        Expr::ForLoop { producer, body, .. } => uses_union(uses_expr(*producer), uses_block(body)),
        Expr::Loop { body, .. } => uses_block(body),
        Expr::While { cond, body, .. } => uses_union(uses_expr(*cond), uses_block(body)),
        Expr::If { cond, then_branch, else_branch } => uses_union(
            uses_expr(*cond),
            uses_union(uses_block(then_branch), uses_block(else_branch)),
        ),
        Expr::Block(b) => uses_block(b),
        Expr::Break { value, .. } => uses_expr_opt(value),
        Expr::Closure(_) => uses_none(),
    }
}

pub open spec fn uses_expr_opt(v: Option<Box<Expr>>) -> UnitUses
    decreases v,
{
    match v {
        Some(b) => uses_expr(*b),
        None => uses_none(),
    }
}

pub open spec fn uses_expr_list(s: Seq<Expr>) -> UnitUses
    decreases s,
{
    if s.len() == 0 {
        uses_none()
    } else {
        uses_union(uses_expr(s[0]), uses_expr_list(s.skip(1)))
    }
}

pub open spec fn uses_block(b: Block) -> UnitUses
    decreases b,
{
    uses_stmt_list(b.stmts@)
}

pub open spec fn uses_stmt_list(s: Seq<Stmt>) -> UnitUses
    decreases s,
{
    if s.len() == 0 {
        uses_none()
    } else {
        uses_union(uses_stmt(s[0]), uses_stmt_list(s.skip(1)))
    }
}

pub open spec fn uses_stmt(s: Stmt) -> UnitUses
    decreases s,
{
    match s {
        Stmt::Expr(e) => uses_expr(e),
        Stmt::Let { init, .. } => uses_expr(init),
        Stmt::Item(i) => match i {
            Item::Boundary(_) => uses_none(),
            Item::Plain(e) => uses_expr(e),
        },
    }
}

/// Scans one expression for suspension-point use.
pub fn scan_expr(e: &Expr) -> (u: UnitUses)
    ensures
        u == uses_expr(*e),
    decreases size_expr(*e), 0nat,
{
    match e {
        Expr::Atom(_) => UnitUses { has_await: false, has_try: false },
        Expr::Compound(es) => {
            proof {
                assert(es@.skip(0) =~= es@);
            }
            scan_expr_list(es, 0)
        },
        Expr::Await(b) => {
            let u = scan_expr(b);
            UnitUses { has_await: true, has_try: u.has_try }
        },
        Expr::Yield(v) => scan_expr_opt(v),
        Expr::Try(b) => {
            let u = scan_expr(b);
            UnitUses { has_await: u.has_await, has_try: true }
        },
        Expr::ForLoop { producer, body, .. } => {
            let a = scan_expr(producer);
            let b = scan_block(body);
            UnitUses { has_await: a.has_await || b.has_await, has_try: a.has_try || b.has_try }
        },
        Expr::Loop { body, .. } => scan_block(body),
        Expr::While { cond, body, .. } => {
            let a = scan_expr(cond);
            let b = scan_block(body);
            UnitUses { has_await: a.has_await || b.has_await, has_try: a.has_try || b.has_try }
        },
        Expr::If { cond, then_branch, else_branch } => {
            let a = scan_expr(cond);
            let b = scan_block(then_branch);
            let c = scan_block(else_branch);
            UnitUses {
                has_await: a.has_await || b.has_await || c.has_await,
                has_try: a.has_try || b.has_try || c.has_try,
            }
        },
        Expr::Block(b) => scan_block(b),
        Expr::Break { value, .. } => scan_expr_opt(value),
        Expr::Closure(_) => UnitUses { has_await: false, has_try: false },
    }
}

pub fn scan_expr_opt(v: &Option<Box<Expr>>) -> (u: UnitUses)
    ensures
        u == uses_expr_opt(*v),
    decreases size_expr_opt(*v), 1nat,
{
    match v {
        Some(b) => scan_expr(b),
        None => UnitUses { has_await: false, has_try: false },
    }
}

pub fn scan_expr_list(v: &Vec<Expr>, i: usize) -> (u: UnitUses)
    requires
        i <= v.len(),
    ensures
        u == uses_expr_list(v@.skip(i as int)),
    decreases size_expr_list(v@.skip(i as int)), 1nat,
{
    if i < v.len() {
        proof {
            lemma_size_expr_list_unfold(v@, i as int);
            lemma_size_expr_pos(v@[i as int]);
            assert(v@.skip(i as int)[0] == v@[i as int]);
            assert(v@.skip(i as int).skip(1) =~= v@.skip(i as int + 1));
        }
        let a = scan_expr(&v[i]);
        let b = scan_expr_list(v, i + 1);
        UnitUses { has_await: a.has_await || b.has_await, has_try: a.has_try || b.has_try }
    } else {
        UnitUses { has_await: false, has_try: false }
    }
}

/// Scans one block for suspension-point use within its own unit.
pub fn scan_block(b: &Block) -> (u: UnitUses)
    ensures
        u == uses_block(*b),
    decreases size_block(*b), 0nat,
{
    proof {
        assert(b.stmts@.skip(0) =~= b.stmts@);
    }
    scan_stmt_list(&b.stmts, 0)
}

pub fn scan_stmt_list(v: &Vec<Stmt>, i: usize) -> (u: UnitUses)
    requires
        i <= v.len(),
    ensures
        u == uses_stmt_list(v@.skip(i as int)),
    decreases size_stmt_list(v@.skip(i as int)), 1nat,
{
    if i < v.len() {
        proof {
            lemma_size_stmt_list_unfold(v@, i as int);
            lemma_size_stmt_pos(v@[i as int]);
            assert(v@.skip(i as int)[0] == v@[i as int]);
            assert(v@.skip(i as int).skip(1) =~= v@.skip(i as int + 1));
        }
        let a = scan_stmt(&v[i]);
        let b = scan_stmt_list(v, i + 1);
        UnitUses { has_await: a.has_await || b.has_await, has_try: a.has_try || b.has_try }
    } else {
        UnitUses { has_await: false, has_try: false }
    }
}

pub fn scan_stmt(s: &Stmt) -> (u: UnitUses)
    ensures
        u == uses_stmt(*s),
    decreases size_stmt(*s), 0nat,
{
    match s {
        Stmt::Expr(e) => scan_expr(e),
        Stmt::Let { init, .. } => scan_expr(init),
        Stmt::Item(i) => match i {
            Item::Boundary(_) => UnitUses { has_await: false, has_try: false },
            Item::Plain(e) => scan_expr(e),
        },
    }
}

/// The outcome of folding a declaration's option list, left to right,
/// stopping at the first option outside the recognized set.
pub struct OptsResult {
    pub fails: bool,
    pub yields: bool,
    pub unknown: Option<Seq<char>>,
}

/// The exact recognized option set is `fails` and `yields`; anything
/// else stops the fold and is reported by name.
pub open spec fn apply_opts(opts: Seq<Seq<char>>, fails: bool, yields: bool) -> OptsResult
    decreases opts.len(),
{
    if opts.len() == 0 {
        OptsResult { fails, yields, unknown: None }
    } else if opts[0] == "fails"@ {
        apply_opts(opts.skip(1), true, yields)
    } else if opts[0] == "yields"@ {
        apply_opts(opts.skip(1), fails, true)
    } else {
        OptsResult { fails, yields, unknown: Some(opts[0]) }
    }
}

impl AttrGenerator {
    /// Parses a declaration's capability options into the flags of this
    /// generator, reporting the first unrecognized option by name.
    pub fn apply_effect_options(&mut self, opts: &Vec<String>) -> (r: Result<(), DeclError>)
        ensures
            ({
                let o = apply_opts(
                    opts@.map_values(|s: String| s@),
                    old(self).fallible,
                    old(self).yields,
                );
                &&& final(self).fallible == o.fails
                &&& final(self).yields == o.yields
                &&& final(self).func == old(self).func
                &&& match o.unknown {
                    None => r is Ok,
                    Some(name) => r matches Err(DeclError::UnknownOption(s)) && s@ == name,
                }
            }),
    {
        let ghost vs = opts@.map_values(|s: String| s@);
        let fails_word: String = "fails".to_owned();
        let yields_word: String = "yields".to_owned();
        let mut i: usize = 0;
        proof {
            assert(vs.skip(0) =~= vs);
        }
        while i < opts.len()
            invariant
                i <= opts.len(),
                vs == opts@.map_values(|s: String| s@),
                fails_word@ == "fails"@,
                yields_word@ == "yields"@,
                self.func == old(self).func,
                apply_opts(vs.skip(i as int), self.fallible, self.yields) == apply_opts(
                    vs,
                    old(self).fallible,
                    old(self).yields,
                ),
            decreases opts.len() - i,
        {
            proof {
                assert(vs.skip(i as int)[0] == vs[i as int]);
                assert(vs.skip(i as int).skip(1) =~= vs.skip(i as int + 1));
            }
            let o = &opts[i];
            if o.eq(&fails_word) {
                self.fallible = true;
            } else if o.eq(&yields_word) {
                self.yields = true;
            } else {
                return Err(DeclError::UnknownOption(o.clone()));
            }
            i = i + 1;
        }
        proof {
            assert(vs.skip(opts.len() as int) =~= Seq::<Seq<char>>::empty());
        }
        Ok(())
    }
}

/// The declared return type of a unit; a unit that declares none
/// returns the empty tuple.
pub open spec fn spec_return_ty(ret: Option<Ty>) -> Ty {
    match ret {
        Some(t) => t,
        None => Ty::Unit,
    }
}

/// The signature a well-formed declaration denotes.
pub open spec fn spec_signature(decl: AttrGenerator) -> EffectSignature {
    EffectSignature {
        sync: !decl.func.is_async,
        multiplicity: if decl.yields {
            Multiplicity::Multiple
        } else {
            Multiplicity::Single
        },
        failure: if decl.fallible {
            FailureMode::Fails(Ty::BreakOf(Box::new(spec_return_ty(decl.func.ret))))
        } else {
            FailureMode::Infallible
        },
    }
}

/// Derives the capability triple of a declared unit and checks it
/// against the body's own use of suspension points. An `await` in a
/// unit not declared asynchronous, or a `?` in a unit declared
/// infallible, is a build-time error; otherwise the signature is
/// returned, always.
pub fn classify(decl: &AttrGenerator) -> (r: Result<EffectSignature, DeclError>)
    ensures
        ({
            let uses = uses_block(decl.func.body);
            if uses.has_await && !decl.func.is_async {
                r == Result::<EffectSignature, DeclError>::Err(DeclError::AwaitOutsideAsync)
            } else if uses.has_try && !decl.fallible {
                r == Result::<EffectSignature, DeclError>::Err(DeclError::TryInInfallible)
            } else {
                r matches Ok(sig) && sig == spec_signature(*decl)
            }
        }),
{
    let uses = scan_block(&decl.func.body);
    if uses.has_await && !decl.func.is_async {
        return Err(DeclError::AwaitOutsideAsync);
    }
    if uses.has_try && !decl.fallible {
        return Err(DeclError::TryInInfallible);
    }
    let failure = if decl.fallible {
        let ret = match &decl.func.ret {
            Some(t) => clone_ty(t),
            None => Ty::Unit,
        };
        FailureMode::Fails(Ty::BreakOf(Box::new(ret)))
    } else {
        FailureMode::Infallible
    };
    Ok(
        EffectSignature {
            sync: !decl.func.is_async,
            multiplicity: if decl.yields {
                Multiplicity::Multiple
            } else {
                Multiplicity::Single
            },
            failure,
        },
    )
}

/// Structure-preserving copy of a type expression.
pub fn clone_ty(t: &Ty) -> (r: Ty)
    ensures
        r == *t,
    decreases *t,
{
    match t {
        Ty::Unit => Ty::Unit,
        Ty::Named(n) => Ty::Named(*n),
        Ty::ContinueOf(b) => Ty::ContinueOf(Box::new(clone_ty(b))),
        Ty::BreakOf(b) => Ty::BreakOf(Box::new(clone_ty(b))),
        Ty::FailureWrap(b) => Ty::FailureWrap(Box::new(clone_ty(b))),
        Ty::Never => Ty::Never,
    }
}

/// Which of the eight shims the three capability axes select.
pub open spec fn shim_of_flags(sync: bool, multiple: bool, fallible: bool) -> ShimKind {
    if sync {
        if multiple {
            if fallible {
                ShimKind::SyncFallibleGenerator
            } else {
                ShimKind::SyncGenerator
            }
        } else {
            if fallible {
                ShimKind::SyncFallibleOnce
            } else {
                ShimKind::SyncOnce
            }
        }
    } else {
        if multiple {
            if fallible {
                ShimKind::AsyncFallibleGenerator
            } else {
                ShimKind::AsyncGenerator
            }
        } else {
            if fallible {
                ShimKind::AsyncFallibleOnce
            } else {
                ShimKind::AsyncOnce
            }
        }
    }
}

/// Which of the eight shims a signature selects.
pub open spec fn shim_of(sig: EffectSignature) -> ShimKind {
    shim_of_flags(sig.sync, sig.multiplicity is Multiple, sig.failure is Fails)
}

/// Selects the runtime shim for a signature: exactly one of the eight,
/// decided by the three axes alone.
pub fn select_shim(sig: &EffectSignature) -> (k: ShimKind)
    ensures
        k == shim_of(*sig),
{
    let fallible = match sig.failure {
        FailureMode::Fails(_) => true,
        FailureMode::Infallible => false,
    };
    let multiple = match sig.multiplicity {
        Multiplicity::Multiple => true,
        Multiplicity::Single => false,
    };
    match (sig.sync, multiple, fallible) {
        (true, true, false) => ShimKind::SyncGenerator,
        (true, false, false) => ShimKind::SyncOnce,
        (true, true, true) => ShimKind::SyncFallibleGenerator,
        (true, false, true) => ShimKind::SyncFallibleOnce,
        (false, true, false) => ShimKind::AsyncGenerator,
        (false, false, false) => ShimKind::AsyncOnce,
        (false, true, true) => ShimKind::AsyncFallibleGenerator,
        (false, false, true) => ShimKind::AsyncFallibleOnce,
    }
}

/// The advertised interface of one unit: what it produces, how it
/// fails, its multiplicity and its asyncness, as a caller of the
/// wrapped unit sees them.
#[derive(PartialEq, Eq, Debug)]
pub struct InterfaceTy {
    pub item: Ty,
    pub failure: Ty,
    pub produces: Multiplicity,
    pub asyncness: Asyncness,
}

/// The interface a declaration advertises: a fallible unit's declared
/// return type is split into its success half (the item) and its
/// failure half (carried inside the failure wrapper); an infallible
/// unit produces its return type as is and can never fail.
pub open spec fn spec_interface(decl: AttrGenerator) -> InterfaceTy {
    let ret = spec_return_ty(decl.func.ret);
    InterfaceTy {
        item: if decl.fallible {
            Ty::ContinueOf(Box::new(ret))
        } else {
            ret
        },
        failure: if decl.fallible {
            Ty::FailureWrap(Box::new(Ty::BreakOf(Box::new(ret))))
        } else {
            Ty::Never
        },
        produces: if decl.yields {
            Multiplicity::Multiple
        } else {
            Multiplicity::Single
        },
        asyncness: if decl.func.is_async {
            Asyncness::Async
        } else {
            Asyncness::Blocking
        },
    }
}

/// Builds the advertised interface of a declared unit.
pub fn unit_interface(decl: &AttrGenerator) -> (it: InterfaceTy)
    ensures
        it == spec_interface(*decl),
{
    let ret = match &decl.func.ret {
        Some(t) => clone_ty(t),
        None => Ty::Unit,
    };
    let (item, failure) = if decl.fallible {
        let item = Ty::ContinueOf(Box::new(clone_ty(&ret)));
        let failure = Ty::FailureWrap(Box::new(Ty::BreakOf(Box::new(ret))));
        (item, failure)
    } else {
        (ret, Ty::Never)
    };
    InterfaceTy {
        item,
        failure,
        produces: if decl.yields {
            Multiplicity::Multiple
        } else {
            Multiplicity::Single
        },
        asyncness: if decl.func.is_async {
            Asyncness::Async
        } else {
            Asyncness::Blocking
        },
    }
}

} // verus!
