//! An untyped lambda calculus whose variables are a wrapper type of their
//! own, carrying a display name as metadata. The family exercises shifting
//! and capture-avoiding substitution together: substitution into a binder
//! increments the replacement's indices and bumps the variable index by one.

use vstd::prelude::*;

use crate::debruijn_indexed::DeBruijnIndexed;
use crate::substitute::{SubstError, SubstKind, Substitute};

verus! {

/// A named variable occurrence: the index locates the binder, the name is
/// metadata ignored by every index operation.
#[derive(Debug, PartialEq)]
pub struct Variable {
    pub index: usize,
    pub name: String,
}

impl Clone for Variable {
    fn clone(&self) -> (r: Self)
        ensures
            r == *self,
    {
        Variable { index: self.index, name: self.name.clone() }
    }
}

impl DeBruijnIndexed for Variable {
    open spec fn spec_shift_from_by(self, start: int, amount: int) -> Self {
        Variable {
            index: if self.index >= start {
                (self.index + amount) as usize
            } else {
                self.index
            },
            name: self.name,
        }
    }

    open spec fn spec_get_var(self) -> Option<usize> {
        Some(self.index)
    }

    open spec fn indices_below(self, bound: int) -> bool {
        self.index < bound
    }

    open spec fn binder_depth(self) -> nat {
        0
    }

    fn get_var(&self) -> (r: Option<usize>) {
        Some(self.index)
    }

    fn increment_indices_from_by(&self, start: usize, amount: usize) -> (r: Self) {
        if self.index >= start {
            Variable { index: self.index + amount, name: self.name.clone() }
        } else {
            Variable { index: self.index, name: self.name.clone() }
        }
    }

    proof fn lemma_shift_zero(self, start: int) {
    }

    proof fn lemma_shift_compose(self, start: int, a: int, b: int) {
    }

    proof fn lemma_shift_skips_below(self, bound: int, start: int, amount: int) {
    }

    proof fn lemma_shift_get_var(self, start: int, amount: int) {
    }
}

impl SubstKind for Variable {
    open spec fn spec_kind_name() -> Seq<char> {
        "Variable"@
    }

    fn kind_name() -> (r: &'static str) {
        "Variable"
    }
}

/// An untyped lambda term over [`Variable`] occurrences.
#[derive(Debug, PartialEq)]
pub enum LambdaExpr {
    Var(Variable),
    Lambda(Box<LambdaExpr>),
    App(Box<LambdaExpr>, Box<LambdaExpr>),
}

impl Clone for LambdaExpr {
    fn clone(&self) -> (r: Self)
        ensures
            r == *self,
        decreases *self,
    {
        match self {
            LambdaExpr::Var(v) => LambdaExpr::Var(v.clone()),
            LambdaExpr::Lambda(body) => LambdaExpr::Lambda(Box::new((**body).clone())),
            LambdaExpr::App(func, arg) => LambdaExpr::App(
                Box::new((**func).clone()),
                Box::new((**arg).clone()),
            ),
        }
    }
}

impl DeBruijnIndexed for LambdaExpr {
    open spec fn spec_shift_from_by(self, start: int, amount: int) -> Self
        decreases self,
    {
        match self {
            LambdaExpr::Var(v) => LambdaExpr::Var(v.spec_shift_from_by(start, amount)),
            LambdaExpr::Lambda(body) => LambdaExpr::Lambda(
                Box::new((*body).spec_shift_from_by(start + 1, amount)),
            ),
            LambdaExpr::App(func, arg) => LambdaExpr::App(
                Box::new((*func).spec_shift_from_by(start, amount)),
                Box::new((*arg).spec_shift_from_by(start, amount)),
            ),
        }
    }

    open spec fn spec_get_var(self) -> Option<usize> {
        match self {
            LambdaExpr::Var(v) => v.spec_get_var(),
            _ => None,
        }
    }

    open spec fn indices_below(self, bound: int) -> bool
        decreases self,
    {
        match self {
            LambdaExpr::Var(v) => v.indices_below(bound),
            LambdaExpr::Lambda(body) => (*body).indices_below(bound),
            LambdaExpr::App(func, arg) => (*func).indices_below(bound) && (*arg).indices_below(
                bound,
            ),
        }
    }

    open spec fn binder_depth(self) -> nat
        decreases self,
    {
        match self {
            LambdaExpr::Var(_) => 0,
            LambdaExpr::Lambda(body) => (*body).binder_depth() + 1,
            LambdaExpr::App(func, arg) => vstd::math::max(
                (*func).binder_depth() as int,
                (*arg).binder_depth() as int,
            ) as nat,
        }
    }

    fn get_var(&self) -> (r: Option<usize>) {
        match self {
            LambdaExpr::Var(v) => v.get_var(),
            _ => None,
        }
    }

    fn increment_indices_from_by(&self, start: usize, amount: usize) -> (r: Self)
        decreases *self,
    {
        match self {
            LambdaExpr::Var(v) => LambdaExpr::Var(v.increment_indices_from_by(start, amount)),
            LambdaExpr::Lambda(body) => {
                proof {
                    assert(self.binder_depth() == (**body).binder_depth() + 1);
                }
                LambdaExpr::Lambda(Box::new((**body).increment_indices_from_by(start + 1, amount)))
            },
            LambdaExpr::App(func, arg) => LambdaExpr::App(
                Box::new((**func).increment_indices_from_by(start, amount)),
                Box::new((**arg).increment_indices_from_by(start, amount)),
            ),
        }
    }

    proof fn lemma_shift_zero(self, start: int)
        decreases self,
    {
        match self {
            LambdaExpr::Var(_) => {},
            LambdaExpr::Lambda(body) => {
                (*body).lemma_shift_zero(start + 1);
            },
            LambdaExpr::App(func, arg) => {
                (*func).lemma_shift_zero(start);
                (*arg).lemma_shift_zero(start);
            },
        }
    }

    proof fn lemma_shift_compose(self, start: int, a: int, b: int)
        decreases self,
    {
        match self {
            LambdaExpr::Var(_) => {},
            LambdaExpr::Lambda(body) => {
                (*body).lemma_shift_compose(start + 1, a, b);
            },
            LambdaExpr::App(func, arg) => {
                (*func).lemma_shift_compose(start, a, b);
                (*arg).lemma_shift_compose(start, a, b);
            },
        }
    }

    proof fn lemma_shift_skips_below(self, bound: int, start: int, amount: int)
        decreases self,
    {
        match self {
            LambdaExpr::Var(_) => {},
            LambdaExpr::Lambda(body) => {
                (*body).lemma_shift_skips_below(bound, start + 1, amount);
            },
            LambdaExpr::App(func, arg) => {
                (*func).lemma_shift_skips_below(bound, start, amount);
                (*arg).lemma_shift_skips_below(bound, start, amount);
            },
        }
    }

    proof fn lemma_shift_get_var(self, start: int, amount: int) {
    }
}

impl LambdaExpr {
    /// A bound on the indices of a term widens with the bound.
    proof fn lemma_indices_below_mono(self, b1: int, b2: int)
        requires
            self.indices_below(b1),
            b1 <= b2,
        ensures
            self.indices_below(b2),
        decreases self,
    {
        match self {
            LambdaExpr::Var(_) => {},
            LambdaExpr::Lambda(body) => {
                (*body).lemma_indices_below_mono(b1, b2);
            },
            LambdaExpr::App(func, arg) => {
                (*func).lemma_indices_below_mono(b1, b2);
                (*arg).lemma_indices_below_mono(b1, b2);
            },
        }
    }

    /// Shifting by `amount` moves a bound on the indices up by `amount`.
    proof fn lemma_shift_indices_below(self, start: int, amount: int, bound: int)
        requires
            self.indices_below(bound),
            0 <= amount,
        ensures
            self.spec_shift_from_by(start, amount).indices_below(bound + amount),
        decreases self,
    {
        match self {
            LambdaExpr::Var(_) => {},
            LambdaExpr::Lambda(body) => {
                (*body).lemma_shift_indices_below(start + 1, amount, bound);
            },
            LambdaExpr::App(func, arg) => {
                (*func).lemma_shift_indices_below(start, amount, bound);
                (*arg).lemma_shift_indices_below(start, amount, bound);
            },
        }
    }

    /// Shifting never changes where the binders sit.
    proof fn lemma_shift_binder_depth(self, start: int, amount: int)
        ensures
            self.spec_shift_from_by(start, amount).binder_depth() == self.binder_depth(),
        decreases self,
    {
        match self {
            LambdaExpr::Var(_) => {},
            LambdaExpr::Lambda(body) => {
                (*body).lemma_shift_binder_depth(start + 1, amount);
            },
            LambdaExpr::App(func, arg) => {
                (*func).lemma_shift_binder_depth(start, amount);
                (*arg).lemma_shift_binder_depth(start, amount);
            },
        }
    }
}

impl SubstKind for LambdaExpr {
    open spec fn spec_kind_name() -> Seq<char> {
        "LambdaExpr"@
    }

    fn kind_name() -> (r: &'static str) {
        "LambdaExpr"
    }
}

impl Substitute<LambdaExpr> for Variable {
    type Target = LambdaExpr;

    type Error = SubstError;

    open spec fn spec_substitute(self, expr: LambdaExpr, var: int) -> Result<
        LambdaExpr,
        SubstError,
    > {
        if self.index < var {
            Ok(LambdaExpr::Var(self))
        } else if self.index == var {
            Ok(expr)
        } else {
            Ok(
                LambdaExpr::Var(
                    Variable { index: (self.index - 1) as usize, name: self.name },
                ),
            )
        }
    }

    open spec fn subst_req(self, expr: LambdaExpr, var: int) -> bool {
        true
    }

    fn substitute(&self, expr: &LambdaExpr, var: usize) -> (r: Result<LambdaExpr, SubstError>) {
        if self.index < var {
            Ok(LambdaExpr::Var(self.clone()))
        } else if self.index == var {
            Ok(expr.clone())
        } else {
            Ok(LambdaExpr::Var(Variable { index: self.index - 1, name: self.name.clone() }))
        }
    }
}

impl Substitute<LambdaExpr> for LambdaExpr {
    type Target = LambdaExpr;

    type Error = SubstError;

    open spec fn spec_substitute(self, expr: LambdaExpr, var: int) -> Result<
        LambdaExpr,
        SubstError,
    >
        decreases self,
    {
        match self {
            LambdaExpr::Var(v) => {
                if v.index < var {
                    Ok(LambdaExpr::Var(v))
                } else if v.index == var {
                    Ok(expr)
                } else {
                    Ok(LambdaExpr::Var(v.spec_shift_from_by(0, -1)))
                }
            },
            LambdaExpr::Lambda(body) => match (*body).spec_substitute(
                expr.spec_shift_from_by(0, 1),
                var + 1,
            ) {
                Ok(b) => Ok(LambdaExpr::Lambda(Box::new(b))),
                Err(e) => Err(e),
            },
            LambdaExpr::App(func, arg) => match (*func).spec_substitute(expr, var) {
                Ok(f) => match (*arg).spec_substitute(expr, var) {
                    Ok(a) => Ok(LambdaExpr::App(Box::new(f), Box::new(a))),
                    Err(e) => Err(e),
                },
                Err(e) => Err(e),
            },
        }
    }

    open spec fn subst_req(self, expr: LambdaExpr, var: int) -> bool {
        &&& 0 <= var
        &&& var + self.binder_depth() <= usize::MAX
        &&& expr.binder_depth() <= usize::MAX
        &&& expr.indices_below(usize::MAX - self.binder_depth())
    }

    fn substitute(&self, expr: &LambdaExpr, var: usize) -> (r: Result<LambdaExpr, SubstError>)
        decreases *self,
    {
        match self {
            LambdaExpr::Var(v) => {
                if v.index < var {
                    Ok(LambdaExpr::Var(v.clone()))
                } else if v.index == var {
                    Ok(expr.clone())
                } else {
                    proof {
                        assert(v.spec_shift_from_by(0, -1) == (Variable {
                            index: (v.index - 1) as usize,
                            name: v.name,
                        }));
                    }
                    Ok(LambdaExpr::Var(Variable { index: v.index - 1, name: v.name.clone() }))
                }
            },
            LambdaExpr::Lambda(body) => {
                proof {
                    assert(self.binder_depth() == (**body).binder_depth() + 1);
                    expr.lemma_indices_below_mono(
                        usize::MAX - self.binder_depth(),
                        usize::MAX as int,
                    );
                    expr.lemma_shift_indices_below(
                        0,
                        1,
                        usize::MAX - self.binder_depth(),
                    );
                    expr.lemma_shift_binder_depth(0, 1);
                }
                let shifted = expr.increment_indices();
                match (**body).substitute(&shifted, var + 1) {
                    Ok(b) => Ok(LambdaExpr::Lambda(Box::new(b))),
                    Err(e) => Err(e),
                }
            },
            LambdaExpr::App(func, arg) => {
                proof {
                    assert((**func).binder_depth() <= self.binder_depth());
                    assert((**arg).binder_depth() <= self.binder_depth());
                    expr.lemma_indices_below_mono(
                        usize::MAX - self.binder_depth(),
                        usize::MAX - (**func).binder_depth(),
                    );
                    expr.lemma_indices_below_mono(
                        usize::MAX - self.binder_depth(),
                        usize::MAX - (**arg).binder_depth(),
                    );
                }
                match (**func).substitute(expr, var) {
                    Ok(f) => match (**arg).substitute(expr, var) {
                        Ok(a) => Ok(LambdaExpr::App(Box::new(f), Box::new(a))),
                        Err(e) => Err(e),
                    },
                    Err(e) => Err(e),
                }
            },
        }
    }
}

} // verus!
