//! Small term families exercising the [`DeBruijnIndexed`] capability, written
//! out constructor by constructor as a term-family author would.

use vstd::prelude::*;

use crate::debruijn_indexed::DeBruijnIndexed;

verus! {

/// A term which is nothing but a variable index.
#[derive(Debug, PartialEq, Eq, Structural)]
pub struct JustAVariable(pub usize);

impl DeBruijnIndexed for JustAVariable {
    open spec fn spec_shift_from_by(self, start: int, amount: int) -> Self {
        JustAVariable(
            if self.0 >= start {
                (self.0 + amount) as usize
            } else {
                self.0
            },
        )
    }

    open spec fn spec_get_var(self) -> Option<usize> {
        Some(self.0)
    }

    open spec fn indices_below(self, bound: int) -> bool {
        self.0 < bound
    }

    open spec fn binder_depth(self) -> nat {
        0
    }

    fn get_var(&self) -> (r: Option<usize>) {
        Some(self.0)
    }

    fn increment_indices_from_by(&self, start: usize, amount: usize) -> (r: Self) {
        if self.0 >= start {
            JustAVariable(self.0 + amount)
        } else {
            JustAVariable(self.0)
        }
    }

    proof fn lemma_shift_zero(self, start: int) {
    }

    proof fn lemma_shift_compose(self, start: int, a: int, b: int) {
    }

    proof fn lemma_shift_skips_below(self, bound: int, start: int, amount: int) {
    }

    proof fn lemma_shift_get_var(self, start: int, amount: int) {
    }
}

/// A term whose only field is a variable-classified child: index operations
/// delegate to the child, and the term reads as a variable whenever the child
/// does.
#[derive(Debug, PartialEq, Eq, Structural)]
pub struct NestedVariable(pub JustAVariable);

impl DeBruijnIndexed for NestedVariable {
    open spec fn spec_shift_from_by(self, start: int, amount: int) -> Self {
        NestedVariable(self.0.spec_shift_from_by(start, amount))
    }

    open spec fn spec_get_var(self) -> Option<usize> {
        self.0.spec_get_var()
    }

    open spec fn indices_below(self, bound: int) -> bool {
        self.0.indices_below(bound)
    }

    open spec fn binder_depth(self) -> nat {
        self.0.binder_depth()
    }

    fn get_var(&self) -> (r: Option<usize>) {
        self.0.get_var()
    }

    fn increment_indices_from_by(&self, start: usize, amount: usize) -> (r: Self) {
        NestedVariable(self.0.increment_indices_from_by(start, amount))
    }

    proof fn lemma_shift_zero(self, start: int) {
        self.0.lemma_shift_zero(start);
    }

    proof fn lemma_shift_compose(self, start: int, a: int, b: int) {
        self.0.lemma_shift_compose(start, a, b);
    }

    proof fn lemma_shift_skips_below(self, bound: int, start: int, amount: int) {
        self.0.lemma_shift_skips_below(bound, start, amount);
    }

    proof fn lemma_shift_get_var(self, start: int, amount: int) {
        self.0.lemma_shift_get_var(start, amount);
    }
}

/// A recursive term: a variable, or an ordinary wrapper around a smaller
/// term. The wrapper is not itself a variable occurrence.
#[derive(Debug, PartialEq)]
pub enum RecursiveWithVariable {
    Variable(usize),
    Recursive(Box<RecursiveWithVariable>),
}

impl DeBruijnIndexed for RecursiveWithVariable {
    open spec fn spec_shift_from_by(self, start: int, amount: int) -> Self
        decreases self,
    {
        match self {
            RecursiveWithVariable::Variable(i) => RecursiveWithVariable::Variable(
                if i >= start {
                    (i + amount) as usize
                } else {
                    i
                },
            ),
            RecursiveWithVariable::Recursive(t) => RecursiveWithVariable::Recursive(
                Box::new((*t).spec_shift_from_by(start, amount)),
            ),
        }
    }

    open spec fn spec_get_var(self) -> Option<usize> {
        match self {
            RecursiveWithVariable::Variable(i) => Some(i),
            RecursiveWithVariable::Recursive(_) => None,
        }
    }

    open spec fn indices_below(self, bound: int) -> bool
        decreases self,
    {
        match self {
            RecursiveWithVariable::Variable(i) => i < bound,
            RecursiveWithVariable::Recursive(t) => (*t).indices_below(bound),
        }
    }

    open spec fn binder_depth(self) -> nat
        decreases self,
    {
        match self {
            RecursiveWithVariable::Variable(_) => 0,
            RecursiveWithVariable::Recursive(t) => (*t).binder_depth(),
        }
    }

    fn get_var(&self) -> (r: Option<usize>) {
        match self {
            RecursiveWithVariable::Variable(i) => Some(*i),
            RecursiveWithVariable::Recursive(_) => None,
        }
    }

    fn increment_indices_from_by(&self, start: usize, amount: usize) -> (r: Self)
        decreases *self,
    {
        match self {
            RecursiveWithVariable::Variable(i) => {
                if *i >= start {
                    RecursiveWithVariable::Variable(*i + amount)
                } else {
                    RecursiveWithVariable::Variable(*i)
                }
            },
            RecursiveWithVariable::Recursive(t) => RecursiveWithVariable::Recursive(
                Box::new((**t).increment_indices_from_by(start, amount)),
            ),
        }
    }

    proof fn lemma_shift_zero(self, start: int)
        decreases self,
    {
        match self {
            RecursiveWithVariable::Variable(_) => {},
            RecursiveWithVariable::Recursive(t) => {
                (*t).lemma_shift_zero(start);
            },
        }
    }

    proof fn lemma_shift_compose(self, start: int, a: int, b: int)
        decreases self,
    {
        match self {
            RecursiveWithVariable::Variable(_) => {},
            RecursiveWithVariable::Recursive(t) => {
                (*t).lemma_shift_compose(start, a, b);
            },
        }
    }

    proof fn lemma_shift_skips_below(self, bound: int, start: int, amount: int)
        decreases self,
    {
        match self {
            RecursiveWithVariable::Variable(_) => {},
            RecursiveWithVariable::Recursive(t) => {
                (*t).lemma_shift_skips_below(bound, start, amount);
            },
        }
    }

    proof fn lemma_shift_get_var(self, start: int, amount: int) {
    }
}

/// A term holding nothing but metadata: index operations leave it untouched,
/// and it is never a variable occurrence.
#[derive(Debug, PartialEq, Eq, Structural)]
pub struct IgnoresMetadata(pub usize);

impl DeBruijnIndexed for IgnoresMetadata {
    open spec fn spec_shift_from_by(self, start: int, amount: int) -> Self {
        self
    }

    open spec fn spec_get_var(self) -> Option<usize> {
        None
    }

    open spec fn indices_below(self, bound: int) -> bool {
        true
    }

    open spec fn binder_depth(self) -> nat {
        0
    }

    fn get_var(&self) -> (r: Option<usize>) {
        None
    }

    fn increment_indices_from_by(&self, start: usize, amount: usize) -> (r: Self) {
        IgnoresMetadata(self.0)
    }

    proof fn lemma_shift_zero(self, start: int) {
    }

    proof fn lemma_shift_compose(self, start: int, a: int, b: int) {
    }

    proof fn lemma_shift_skips_below(self, bound: int, start: int, amount: int) {
    }

    proof fn lemma_shift_get_var(self, start: int, amount: int) {
    }
}

/// An untyped lambda term whose variables carry a display name as metadata:
/// the name is ignored by every index operation.
#[derive(Debug, PartialEq)]
pub enum LambdaTerm {
    Var(&'static str, usize),
    Lambda(Box<LambdaTerm>),
    App(Box<LambdaTerm>, Box<LambdaTerm>),
}

impl Clone for LambdaTerm {
    fn clone(&self) -> (r: Self)
        ensures
            r == *self,
        decreases *self,
    {
        match self {
            LambdaTerm::Var(name, i) => LambdaTerm::Var(name, *i),
            LambdaTerm::Lambda(body) => LambdaTerm::Lambda(Box::new((**body).clone())),
            LambdaTerm::App(func, arg) => LambdaTerm::App(
                Box::new((**func).clone()),
                Box::new((**arg).clone()),
            ),
        }
    }
}

impl DeBruijnIndexed for LambdaTerm {
    open spec fn spec_shift_from_by(self, start: int, amount: int) -> Self
        decreases self,
    {
        match self {
            LambdaTerm::Var(name, i) => LambdaTerm::Var(
                name,
                if i >= start {
                    (i + amount) as usize
                } else {
                    i
                },
            ),
            LambdaTerm::Lambda(body) => LambdaTerm::Lambda(
                Box::new((*body).spec_shift_from_by(start + 1, amount)),
            ),
            LambdaTerm::App(func, arg) => LambdaTerm::App(
                Box::new((*func).spec_shift_from_by(start, amount)),
                Box::new((*arg).spec_shift_from_by(start, amount)),
            ),
        }
    }

    open spec fn spec_get_var(self) -> Option<usize> {
        match self {
            LambdaTerm::Var(_, i) => Some(i),
            _ => None,
        }
    }

    open spec fn indices_below(self, bound: int) -> bool
        decreases self,
    {
        match self {
            LambdaTerm::Var(_, i) => i < bound,
            LambdaTerm::Lambda(body) => (*body).indices_below(bound),
            LambdaTerm::App(func, arg) => (*func).indices_below(bound) && (*arg).indices_below(
                bound,
            ),
        }
    }

    open spec fn binder_depth(self) -> nat
        decreases self,
    {
        match self {
            LambdaTerm::Var(_, _) => 0,
            LambdaTerm::Lambda(body) => (*body).binder_depth() + 1,
            LambdaTerm::App(func, arg) => vstd::math::max(
                (*func).binder_depth() as int,
                (*arg).binder_depth() as int,
            ) as nat,
        }
    }

    fn get_var(&self) -> (r: Option<usize>) {
        match self {
            LambdaTerm::Var(_, i) => Some(*i),
            _ => None,
        }
    }

    fn increment_indices_from_by(&self, start: usize, amount: usize) -> (r: Self)
        decreases *self,
    {
        match self {
            LambdaTerm::Var(name, i) => {
                if *i >= start {
                    LambdaTerm::Var(name, *i + amount)
                } else {
                    LambdaTerm::Var(name, *i)
                }
            },
            LambdaTerm::Lambda(body) => {
                proof {
                    assert(self.binder_depth() == (**body).binder_depth() + 1);
                }
                LambdaTerm::Lambda(Box::new((**body).increment_indices_from_by(start + 1, amount)))
            },
            LambdaTerm::App(func, arg) => LambdaTerm::App(
                Box::new((**func).increment_indices_from_by(start, amount)),
                Box::new((**arg).increment_indices_from_by(start, amount)),
            ),
        }
    }

    proof fn lemma_shift_zero(self, start: int)
        decreases self,
    {
        match self {
            LambdaTerm::Var(_, _) => {},
            LambdaTerm::Lambda(body) => {
                (*body).lemma_shift_zero(start + 1);
            },
            LambdaTerm::App(func, arg) => {
                (*func).lemma_shift_zero(start);
                (*arg).lemma_shift_zero(start);
            },
        }
    }

    proof fn lemma_shift_compose(self, start: int, a: int, b: int)
        decreases self,
    {
        match self {
            LambdaTerm::Var(_, _) => {},
            LambdaTerm::Lambda(body) => {
                (*body).lemma_shift_compose(start + 1, a, b);
            },
            LambdaTerm::App(func, arg) => {
                (*func).lemma_shift_compose(start, a, b);
                (*arg).lemma_shift_compose(start, a, b);
            },
        }
    }

    proof fn lemma_shift_skips_below(self, bound: int, start: int, amount: int)
        decreases self,
    {
        match self {
            LambdaTerm::Var(_, _) => {},
            LambdaTerm::Lambda(body) => {
                (*body).lemma_shift_skips_below(bound, start + 1, amount);
            },
            LambdaTerm::App(func, arg) => {
                (*func).lemma_shift_skips_below(bound, start, amount);
                (*arg).lemma_shift_skips_below(bound, start, amount);
            },
        }
    }

    proof fn lemma_shift_get_var(self, start: int, amount: int) {
    }
}

} // verus!
