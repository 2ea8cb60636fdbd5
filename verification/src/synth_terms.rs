//! A simply-typed family whose every constructor carries a synthesis rule:
//! lambdas are annotated with their source type, so every term synthesizes.
//! Checking comes from the protocol's composition rule.

use vstd::prelude::*;

use crate::attribute::{AttrError, SynthAttribute};
use crate::context::{Context, ListContext};
use crate::simple_types::Ty;

verus! {

/// A term of the annotated simply-typed calculus.
#[derive(Debug)]
pub enum Expr {
    Unit,
    Lam(Box<Ty>, Box<Expr>),
    App(Box<Expr>, Box<Expr>),
    Pair(Box<Expr>, Box<Expr>),
    Wrapped(Box<Expr>),
}

impl SynthAttribute<Ty> for Expr {
    type Error = AttrError;

    type Entry = Ty;

    type Ctx = ListContext<Ty>;

    /// The per-constructor synthesis rules:
    ///
    /// * `Unit` synthesizes the unit type;
    /// * `Lam(src, body)` synthesizes the function type from `src` to
    ///   whatever `body` synthesizes with `src` bound;
    /// * `App(func, arg)` requires `func` to be a lambda (else the rule does
    ///   not match), checks `arg` against the annotation, and synthesizes
    ///   what the body synthesizes with the annotation bound;
    /// * `Pair` synthesizes the product of its components' types;
    /// * `Wrapped` carries no rule of its own: having exactly one child, it
    ///   delegates synthesis to that child unchanged.
    open spec fn spec_synth(self, entries: Seq<Ty>) -> Result<Ty, AttrError>
        decreases self,
    {
        match self {
            Expr::Unit => Ok(Ty::Unit),
            Expr::Lam(src, body) => match (*body).spec_synth(seq![*src] + entries) {
                Ok(tgt) => Ok(Ty::Func(src, Box::new(tgt))),
                Err(e) => Err(e),
            },
            Expr::App(func, arg) => match *func {
                Expr::Lam(src, body) => match (*arg).spec_synth(entries) {
                    // The rule checks `arg` against the annotation and drops the
                    // verdict; checking is synthesis plus syntactic equivalence,
                    // and the equivalence itself cannot fail.
                    Ok(_) => match (*body).spec_synth(seq![*src] + entries) {
                        Ok(tgt) => Ok(tgt),
                        Err(e) => Err(e),
                    },
                    Err(e) => Err(e),
                },
                _ => Err(AttrError::RuleNotMatched),
            },
            Expr::Pair(left, right) => match (*left).spec_synth(entries) {
                Ok(lt) => match (*right).spec_synth(entries) {
                    Ok(rt) => Ok(Ty::Prod(Box::new(lt), Box::new(rt))),
                    Err(e) => Err(e),
                },
                Err(e) => Err(e),
            },
            Expr::Wrapped(inner) => (*inner).spec_synth(entries),
        }
    }

    open spec fn synth_req(self, entries: Seq<Ty>) -> bool {
        true
    }

    fn synth(&self, ctx: &ListContext<Ty>) -> (r: Result<Ty, AttrError>)
        decreases *self,
    {
        match self {
            Expr::Unit => Ok(Ty::Unit),
            Expr::Lam(src, body) => {
                let bound = ctx.append((**src).clone());
                match (**body).synth(&bound) {
                    Ok(tgt) => Ok(Ty::Func(Box::new((**src).clone()), Box::new(tgt))),
                    Err(e) => Err(e),
                }
            },
            Expr::App(func, arg) => match &**func {
                Expr::Lam(src, body) => match (**arg).synth(ctx) {
                    Ok(_) => {
                        let bound = ctx.append((**src).clone());
                        match (**body).synth(&bound) {
                            Ok(tgt) => Ok(tgt),
                            Err(e) => Err(e),
                        }
                    },
                    Err(e) => Err(e),
                },
                _ => Err(AttrError::RuleNotMatched),
            },
            Expr::Pair(left, right) => match (**left).synth(ctx) {
                Ok(lt) => match (**right).synth(ctx) {
                    Ok(rt) => Ok(Ty::Prod(Box::new(lt), Box::new(rt))),
                    Err(e) => Err(e),
                },
                Err(e) => Err(e),
            },
            Expr::Wrapped(inner) => (**inner).synth(ctx),
        }
    }
}

} // verus!
