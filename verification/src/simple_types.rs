//! The attribute type shared by the simply-typed example checkers: unit,
//! function and product types, compared syntactically.

use vstd::prelude::*;

use crate::context::Context;
use crate::contextual_eq::{AutoContextualEq, ExactEq, SyntacticEq};
use crate::debruijn_indexed::DeBruijnIndexed;

verus! {

/// A simple type: unit, function or product.
#[derive(Debug, PartialEq)]
pub enum Ty {
    Prod(Box<Ty>, Box<Ty>),
    Func(Box<Ty>, Box<Ty>),
    Unit,
}

impl Clone for Ty {
    fn clone(&self) -> (r: Self)
        ensures
            r == *self,
        decreases *self,
    {
        match self {
            Ty::Prod(a, b) => Ty::Prod(Box::new((**a).clone()), Box::new((**b).clone())),
            Ty::Func(a, b) => Ty::Func(Box::new((**a).clone()), Box::new((**b).clone())),
            Ty::Unit => Ty::Unit,
        }
    }
}

impl ExactEq for Ty {
    fn exact_eq(&self, other: &Ty) -> (r: bool)
        decreases *self,
    {
        match (self, other) {
            (Ty::Unit, Ty::Unit) => true,
            (Ty::Prod(a, b), Ty::Prod(c, d)) => (**a).exact_eq(&**c) && (**b).exact_eq(&**d),
            (Ty::Func(a, b), Ty::Func(c, d)) => (**a).exact_eq(&**c) && (**b).exact_eq(&**d),
            _ => false,
        }
    }
}

/// Simple types carry no term variables, so index operations leave them
/// untouched and they never read as a variable occurrence.
impl DeBruijnIndexed for Ty {
    open spec fn spec_shift_from_by(self, start: int, amount: int) -> Self {
        self
    }

    open spec fn spec_get_var(self) -> Option<usize> {
        None
    }

    open spec fn indices_below(self, bound: int) -> bool {
        true
    }

    open spec fn binder_depth(self) -> nat {
        0
    }

    fn get_var(&self) -> (r: Option<usize>) {
        None
    }

    fn increment_indices_from_by(&self, start: usize, amount: usize) -> (r: Self) {
        self.clone()
    }

    proof fn lemma_shift_zero(self, start: int) {
    }

    proof fn lemma_shift_compose(self, start: int, a: int, b: int) {
    }

    proof fn lemma_shift_skips_below(self, bound: int, start: int, amount: int) {
    }

    proof fn lemma_shift_get_var(self, start: int, amount: int) {
    }
}

impl<Entry, Ctx: Context<Entry>> AutoContextualEq<Entry, Ctx> for Ty {
    type Impl = SyntacticEq<Ty>;
}

} // verus!
