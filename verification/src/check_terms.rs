//! A simply-typed family whose every constructor carries a checking rule:
//! nothing synthesizes, every judgement is a top-down check against an
//! expected type. A rule whose pattern does not cover the node and expected
//! attribute at hand fails with `RuleNotMatched`.

use vstd::prelude::*;

use crate::attribute::{AttrError, CheckAttribute};
use crate::context::{Context, ListContext};
use crate::contextual_eq::ExactEq;
use crate::simple_types::Ty;

verus! {

/// A term of the annotated simply-typed calculus, checked only.
#[derive(Debug)]
pub enum Expr {
    Unit,
    Lam(Box<Ty>, Box<Expr>),
    App(Box<Expr>, Box<Expr>),
    Pair(Box<Expr>, Box<Expr>),
    Wrapped(Box<Expr>),
}

impl CheckAttribute<Ty> for Expr {
    type Check = bool;

    type Error = AttrError;

    type Entry = Ty;

    type Ctx = ListContext<Ty>;

    /// The per-constructor checking rules:
    ///
    /// * `Unit` checks against the unit type;
    /// * `Lam(src, body)` checks against `Func(src_, tgt)` when the
    ///   annotation equals `src_` and `body` checks against `tgt` with `src`
    ///   bound;
    /// * `App(func, arg)` requires `func` to be a lambda, checks `arg`
    ///   against the annotation, and checks the body against the expected
    ///   type with the annotation bound;
    /// * `Pair` checks its components against the sides of a product type;
    /// * `Wrapped` carries no rule of its own: having exactly one child, it
    ///   delegates checking to that child unchanged.
    open spec fn spec_check(self, attr: Ty, entries: Seq<Ty>) -> Result<bool, AttrError>
        decreases self,
    {
        match self {
            Expr::Unit => match attr {
                Ty::Unit => Ok(true),
                _ => Err(AttrError::RuleNotMatched),
            },
            Expr::Lam(src, body) => match attr {
                Ty::Func(src_, tgt) => {
                    if *src != *src_ {
                        Ok(false)
                    } else {
                        (*body).spec_check(*tgt, seq![*src] + entries)
                    }
                },
                _ => Err(AttrError::RuleNotMatched),
            },
            Expr::App(func, arg) => match *func {
                Expr::Lam(src, body) => match (*arg).spec_check(*src, entries) {
                    Ok(false) => Ok(false),
                    Ok(true) => (*body).spec_check(attr, seq![*src] + entries),
                    Err(e) => Err(e),
                },
                _ => Err(AttrError::RuleNotMatched),
            },
            Expr::Pair(left, right) => match attr {
                Ty::Prod(left_ty, right_ty) => match (*left).spec_check(*left_ty, entries) {
                    Ok(false) => Ok(false),
                    Ok(true) => (*right).spec_check(*right_ty, entries),
                    Err(e) => Err(e),
                },
                _ => Err(AttrError::RuleNotMatched),
            },
            Expr::Wrapped(inner) => (*inner).spec_check(attr, entries),
        }
    }

    open spec fn check_req(self, attr: Ty, entries: Seq<Ty>) -> bool {
        true
    }

    fn check(&self, attr: &Ty, ctx: &ListContext<Ty>) -> (r: Result<bool, AttrError>)
        decreases *self,
    {
        match self {
            Expr::Unit => match attr {
                Ty::Unit => Ok(true),
                _ => Err(AttrError::RuleNotMatched),
            },
            Expr::Lam(src, body) => match attr {
                Ty::Func(src_, tgt) => {
                    if !(**src).exact_eq(&**src_) {
                        Ok(false)
                    } else {
                        let bound = ctx.append((**src).clone());
                        (**body).check(&**tgt, &bound)
                    }
                },
                _ => Err(AttrError::RuleNotMatched),
            },
            Expr::App(func, arg) => match &**func {
                Expr::Lam(src, body) => match (**arg).check(&**src, ctx) {
                    Ok(false) => Ok(false),
                    Ok(true) => {
                        let bound = ctx.append((**src).clone());
                        (**body).check(attr, &bound)
                    },
                    Err(e) => Err(e),
                },
                _ => Err(AttrError::RuleNotMatched),
            },
            Expr::Pair(left, right) => match attr {
                Ty::Prod(left_ty, right_ty) => match (**left).check(&**left_ty, ctx) {
                    Ok(false) => Ok(false),
                    Ok(true) => (**right).check(&**right_ty, ctx),
                    Err(e) => Err(e),
                },
                _ => Err(AttrError::RuleNotMatched),
            },
            Expr::Wrapped(inner) => (**inner).check(attr, ctx),
        }
    }
}

} // verus!
