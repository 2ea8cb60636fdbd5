//! A simply-typed family using the full bidirectional discipline: most
//! constructors synthesize, the un-annotated lambda only checks, and the
//! checking of every synthesizing constructor is derived from its synthesis
//! plus contextual equivalence.

use vstd::prelude::*;

use crate::attribute::{
    lookup,
    spec_lookup,
    AttrError,
    BidirAttribute,
    CheckAttribute,
    PartialSynthAttribute,
};
use crate::context::{Context, ListContext};
use crate::contextual_eq::ContextualEq;
use crate::simple_types::Ty;

verus! {

/// A term of the un-annotated simply-typed calculus.
#[derive(Debug)]
pub enum Expr {
    Unit,
    Var(usize),
    Lam(Box<Expr>),
    App(Box<Expr>, Box<Expr>),
    Pair(Box<Expr>, Box<Expr>),
}

impl PartialSynthAttribute<Ty> for Expr {
    type Error = AttrError;

    type Entry = Ty;

    type Ctx = ListContext<Ty>;

    /// The per-constructor synthesis rules:
    ///
    /// * `Unit` synthesizes the unit type;
    /// * `Var(i)` synthesizes the type the context holds at position `i`,
    ///   with the index-skew shift; a position past the end is an unbound
    ///   variable;
    /// * `Lam` has no synthesis rule: it signals `None` so that checking is
    ///   tried instead;
    /// * `App(func, arg)` requires `func` to be a lambda, synthesizes the
    ///   argument's type and synthesizes the body with it bound;
    /// * `Pair` synthesizes the product of its components' types.
    open spec fn spec_try_synth(self, entries: Seq<Ty>) -> Result<Option<Ty>, AttrError>
        decreases self,
    {
        match self {
            Expr::Unit => Ok(Some(Ty::Unit)),
            Expr::Var(i) => match spec_lookup(entries, i as int) {
                Ok(t) => Ok(Some(t)),
                Err(e) => Err(e),
            },
            Expr::Lam(_) => Ok(None),
            Expr::App(func, arg) => match *func {
                Expr::Lam(body) => match (*arg).spec_try_synth(entries) {
                    Ok(Some(src)) => (*body).spec_try_synth(seq![src] + entries),
                    Ok(None) => Err(AttrError::RuleNotMatched),
                    Err(e) => Err(e),
                },
                _ => Err(AttrError::RuleNotMatched),
            },
            Expr::Pair(left, right) => match (*left).spec_try_synth(entries) {
                Ok(Some(lt)) => match (*right).spec_try_synth(entries) {
                    Ok(Some(rt)) => Ok(Some(Ty::Prod(Box::new(lt), Box::new(rt)))),
                    Ok(None) => Err(AttrError::RuleNotMatched),
                    Err(e) => Err(e),
                },
                Ok(None) => Err(AttrError::RuleNotMatched),
                Err(e) => Err(e),
            },
        }
    }

    open spec fn try_synth_req(self, entries: Seq<Ty>) -> bool
        decreases self,
    {
        match self {
            Expr::Unit => true,
            Expr::Var(i) => (i as int) < entries.len() ==> i < usize::MAX,
            Expr::Lam(_) => true,
            Expr::App(func, arg) => match *func {
                Expr::Lam(body) => {
                    &&& (*arg).try_synth_req(entries)
                    &&& (match (*arg).spec_try_synth(entries) {
                        Ok(Some(src)) => (*body).try_synth_req(seq![src] + entries),
                        _ => true,
                    })
                },
                _ => true,
            },
            Expr::Pair(left, right) => {
                &&& (*left).try_synth_req(entries)
                &&& (match (*left).spec_try_synth(entries) {
                    Ok(Some(_)) => (*right).try_synth_req(entries),
                    _ => true,
                })
            },
        }
    }

    fn try_synth(&self, ctx: &ListContext<Ty>) -> (r: Result<Option<Ty>, AttrError>)
        decreases *self,
    {
        match self {
            Expr::Unit => Ok(Some(Ty::Unit)),
            Expr::Var(i) => match lookup(ctx, *i) {
                Ok(t) => Ok(Some(t)),
                Err(e) => Err(e),
            },
            Expr::Lam(_) => Ok(None),
            Expr::App(func, arg) => match &**func {
                Expr::Lam(body) => match (**arg).try_synth(ctx) {
                    Ok(Some(src)) => {
                        let bound = ctx.append(src);
                        (**body).try_synth(&bound)
                    },
                    Ok(None) => Err(AttrError::RuleNotMatched),
                    Err(e) => Err(e),
                },
                _ => Err(AttrError::RuleNotMatched),
            },
            Expr::Pair(left, right) => match (**left).try_synth(ctx) {
                Ok(Some(lt)) => match (**right).try_synth(ctx) {
                    Ok(Some(rt)) => Ok(Some(Ty::Prod(Box::new(lt), Box::new(rt)))),
                    Ok(None) => Err(AttrError::RuleNotMatched),
                    Err(e) => Err(e),
                },
                Ok(None) => Err(AttrError::RuleNotMatched),
                Err(e) => Err(e),
            },
        }
    }
}

impl CheckAttribute<Ty> for Expr {
    type Check = bool;

    type Error = AttrError;

    type Entry = Ty;

    type Ctx = ListContext<Ty>;

    /// The un-annotated lambda checks against a function type by binding the
    /// source and checking its body against the target; against anything
    /// else its rule does not match. Every other constructor checks by the
    /// composition rule: synthesize, then compare with the expected type. A
    /// construct that cannot synthesize cannot be checked that way either.
    open spec fn spec_check(self, attr: Ty, entries: Seq<Ty>) -> Result<bool, AttrError>
        decreases self,
    {
        match self {
            Expr::Lam(body) => match attr {
                Ty::Func(src, tgt) => (*body).spec_check(*tgt, seq![*src] + entries),
                _ => Err(AttrError::RuleNotMatched),
            },
            _ => match self.spec_try_synth(entries) {
                Ok(Some(a)) => match <Ty as ContextualEq<Ty, ListContext<Ty>>>::spec_equiv(
                    entries,
                    attr,
                    a,
                ) {
                    Ok(c) => Ok(c),
                    Err(e) => Err(AttrError::UserError(e)),
                },
                Ok(None) => Err(AttrError::RuleNotMatched),
                Err(e) => Err(e),
            },
        }
    }

    open spec fn check_req(self, attr: Ty, entries: Seq<Ty>) -> bool
        decreases self,
    {
        match self {
            Expr::Lam(body) => match attr {
                Ty::Func(src, tgt) => (*body).check_req(*tgt, seq![*src] + entries),
                _ => true,
            },
            _ => self.try_synth_req(entries),
        }
    }

    fn check(&self, attr: &Ty, ctx: &ListContext<Ty>) -> (r: Result<bool, AttrError>)
        decreases *self,
    {
        match self {
            Expr::Lam(body) => match attr {
                Ty::Func(src, tgt) => {
                    let bound = ctx.append((**src).clone());
                    (**body).check(&**tgt, &bound)
                },
                _ => Err(AttrError::RuleNotMatched),
            },
            _ => match self.try_synth(ctx) {
                Ok(Some(a)) => {
                    // The chosen strategy is the syntactic one, whose side
                    // conditions are trivial; the first assertion resolves
                    // the strategy projection for the second.
                    proof {
                        assert(<crate::contextual_eq::SyntacticEq<Ty> as
                            crate::contextual_eq::AutoContextualEqImpl<
                            Ty,
                            ListContext<Ty>,
                            Ty,
                        >>::equiv_req(ctx.entries(), *attr, a));
                        assert(<Ty as ContextualEq<Ty, ListContext<Ty>>>::equiv_req(
                            ctx.entries(),
                            *attr,
                            a,
                        ));
                    }
                    match <Ty as ContextualEq<Ty, ListContext<Ty>>>::equiv(ctx, attr, &a) {
                        Ok(c) => Ok(c),
                        Err(e) => Err(AttrError::UserError(e)),
                    }
                },
                Ok(None) => Err(AttrError::RuleNotMatched),
                Err(e) => Err(e),
            },
        }
    }
}

impl BidirAttribute<Ty> for Expr {

}

/// Synthesis implies checking, for the bidirectional family: whenever a term
/// synthesizes a type, checking the term against that very type succeeds.
pub proof fn lemma_bidir_synth_implies_check(t: Expr, entries: Seq<Ty>, a: Ty)
    requires
        t.spec_try_synth(entries) == Ok::<Option<Ty>, AttrError>(Some(a)),
    ensures
        t.spec_check(a, entries) == Ok::<bool, AttrError>(true),
{
}

} // verus!
