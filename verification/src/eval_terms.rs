//! An untyped lambda calculus whose applications reduce: the family
//! exercises the [`Evaluate`] capability, with beta reduction written as the
//! application constructor's reduction rule over its evaluated children.

use vstd::prelude::*;

use crate::context::{skewed_lookup, Context, ListContext};
use crate::contextual_eq::{AutoContextualEq, ContextualEq, ExactEq, NormalFormEq};
use crate::debruijn_indexed::DeBruijnIndexed;
use crate::evaluate::{Embed, EvalError, Evaluate};
use crate::substitute::{SubstError, SubstKind, Substitute};

verus! {

/// An untyped lambda term over bare variable indices.
#[derive(Debug, PartialEq)]
pub enum LambdaExpr {
    Var(usize),
    Lambda(Box<LambdaExpr>),
    App(Box<LambdaExpr>, Box<LambdaExpr>),
}

impl Clone for LambdaExpr {
    fn clone(&self) -> (r: Self)
        ensures
            r == *self,
        decreases *self,
    {
        match self {
            LambdaExpr::Var(i) => LambdaExpr::Var(*i),
            LambdaExpr::Lambda(body) => LambdaExpr::Lambda(Box::new((**body).clone())),
            LambdaExpr::App(func, arg) => LambdaExpr::App(
                Box::new((**func).clone()),
                Box::new((**arg).clone()),
            ),
        }
    }
}

impl DeBruijnIndexed for LambdaExpr {
    open spec fn spec_shift_from_by(self, start: int, amount: int) -> Self
        decreases self,
    {
        match self {
            LambdaExpr::Var(i) => LambdaExpr::Var(
                if i >= start {
                    (i + amount) as usize
                } else {
                    i
                },
            ),
            LambdaExpr::Lambda(body) => LambdaExpr::Lambda(
                Box::new((*body).spec_shift_from_by(start + 1, amount)),
            ),
            LambdaExpr::App(func, arg) => LambdaExpr::App(
                Box::new((*func).spec_shift_from_by(start, amount)),
                Box::new((*arg).spec_shift_from_by(start, amount)),
            ),
        }
    }

    open spec fn spec_get_var(self) -> Option<usize> {
        match self {
            LambdaExpr::Var(i) => Some(i),
            _ => None,
        }
    }

    open spec fn indices_below(self, bound: int) -> bool
        decreases self,
    {
        match self {
            LambdaExpr::Var(i) => i < bound,
            LambdaExpr::Lambda(body) => (*body).indices_below(bound),
            LambdaExpr::App(func, arg) => (*func).indices_below(bound) && (*arg).indices_below(
                bound,
            ),
        }
    }

    open spec fn binder_depth(self) -> nat
        decreases self,
    {
        match self {
            LambdaExpr::Var(_) => 0,
            LambdaExpr::Lambda(body) => (*body).binder_depth() + 1,
            LambdaExpr::App(func, arg) => vstd::math::max(
                (*func).binder_depth() as int,
                (*arg).binder_depth() as int,
            ) as nat,
        }
    }

    fn get_var(&self) -> (r: Option<usize>) {
        match self {
            LambdaExpr::Var(i) => Some(*i),
            _ => None,
        }
    }

    fn increment_indices_from_by(&self, start: usize, amount: usize) -> (r: Self)
        decreases *self,
    {
        match self {
            LambdaExpr::Var(i) => {
                if *i >= start {
                    LambdaExpr::Var(*i + amount)
                } else {
                    LambdaExpr::Var(*i)
                }
            },
            LambdaExpr::Lambda(body) => {
                proof {
                    assert(self.binder_depth() == (**body).binder_depth() + 1);
                }
                LambdaExpr::Lambda(Box::new((**body).increment_indices_from_by(start + 1, amount)))
            },
            LambdaExpr::App(func, arg) => LambdaExpr::App(
                Box::new((**func).increment_indices_from_by(start, amount)),
                Box::new((**arg).increment_indices_from_by(start, amount)),
            ),
        }
    }

    proof fn lemma_shift_zero(self, start: int)
        decreases self,
    {
        match self {
            LambdaExpr::Var(_) => {},
            LambdaExpr::Lambda(body) => {
                (*body).lemma_shift_zero(start + 1);
            },
            LambdaExpr::App(func, arg) => {
                (*func).lemma_shift_zero(start);
                (*arg).lemma_shift_zero(start);
            },
        }
    }

    proof fn lemma_shift_compose(self, start: int, a: int, b: int)
        decreases self,
    {
        match self {
            LambdaExpr::Var(_) => {},
            LambdaExpr::Lambda(body) => {
                (*body).lemma_shift_compose(start + 1, a, b);
            },
            LambdaExpr::App(func, arg) => {
                (*func).lemma_shift_compose(start, a, b);
                (*arg).lemma_shift_compose(start, a, b);
            },
        }
    }

    proof fn lemma_shift_skips_below(self, bound: int, start: int, amount: int)
        decreases self,
    {
        match self {
            LambdaExpr::Var(_) => {},
            LambdaExpr::Lambda(body) => {
                (*body).lemma_shift_skips_below(bound, start + 1, amount);
            },
            LambdaExpr::App(func, arg) => {
                (*func).lemma_shift_skips_below(bound, start, amount);
                (*arg).lemma_shift_skips_below(bound, start, amount);
            },
        }
    }

    proof fn lemma_shift_get_var(self, start: int, amount: int) {
    }
}

impl LambdaExpr {
    /// A bound on the indices of a term widens with the bound.
    proof fn lemma_indices_below_mono(self, b1: int, b2: int)
        requires
            self.indices_below(b1),
            b1 <= b2,
        ensures
            self.indices_below(b2),
        decreases self,
    {
        match self {
            LambdaExpr::Var(_) => {},
            LambdaExpr::Lambda(body) => {
                (*body).lemma_indices_below_mono(b1, b2);
            },
            LambdaExpr::App(func, arg) => {
                (*func).lemma_indices_below_mono(b1, b2);
                (*arg).lemma_indices_below_mono(b1, b2);
            },
        }
    }

    /// Shifting by `amount` moves a bound on the indices up by `amount`.
    proof fn lemma_shift_indices_below(self, start: int, amount: int, bound: int)
        requires
            self.indices_below(bound),
            0 <= amount,
        ensures
            self.spec_shift_from_by(start, amount).indices_below(bound + amount),
        decreases self,
    {
        match self {
            LambdaExpr::Var(_) => {},
            LambdaExpr::Lambda(body) => {
                (*body).lemma_shift_indices_below(start + 1, amount, bound);
            },
            LambdaExpr::App(func, arg) => {
                (*func).lemma_shift_indices_below(start, amount, bound);
                (*arg).lemma_shift_indices_below(start, amount, bound);
            },
        }
    }

    /// Shifting never changes where the binders sit.
    proof fn lemma_shift_binder_depth(self, start: int, amount: int)
        ensures
            self.spec_shift_from_by(start, amount).binder_depth() == self.binder_depth(),
        decreases self,
    {
        match self {
            LambdaExpr::Var(_) => {},
            LambdaExpr::Lambda(body) => {
                (*body).lemma_shift_binder_depth(start + 1, amount);
            },
            LambdaExpr::App(func, arg) => {
                (*func).lemma_shift_binder_depth(start, amount);
                (*arg).lemma_shift_binder_depth(start, amount);
            },
        }
    }
}

impl SubstKind for LambdaExpr {
    open spec fn spec_kind_name() -> Seq<char> {
        "LambdaExpr"@
    }

    fn kind_name() -> (r: &'static str) {
        "LambdaExpr"
    }
}

impl Substitute<LambdaExpr> for LambdaExpr {
    type Target = LambdaExpr;

    type Error = SubstError;

    open spec fn spec_substitute(self, expr: LambdaExpr, var: int) -> Result<
        LambdaExpr,
        SubstError,
    >
        decreases self,
    {
        match self {
            LambdaExpr::Var(i) => {
                if i < var {
                    Ok(LambdaExpr::Var(i))
                } else if i == var {
                    Ok(expr)
                } else {
                    Ok(LambdaExpr::Var((i - 1) as usize))
                }
            },
            LambdaExpr::Lambda(body) => match (*body).spec_substitute(
                expr.spec_shift_from_by(0, 1),
                var + 1,
            ) {
                Ok(b) => Ok(LambdaExpr::Lambda(Box::new(b))),
                Err(e) => Err(e),
            },
            LambdaExpr::App(func, arg) => match (*func).spec_substitute(expr, var) {
                Ok(f) => match (*arg).spec_substitute(expr, var) {
                    Ok(a) => Ok(LambdaExpr::App(Box::new(f), Box::new(a))),
                    Err(e) => Err(e),
                },
                Err(e) => Err(e),
            },
        }
    }

    open spec fn subst_req(self, expr: LambdaExpr, var: int) -> bool {
        &&& 0 <= var
        &&& var + self.binder_depth() <= usize::MAX
        &&& expr.binder_depth() <= usize::MAX
        &&& expr.indices_below(usize::MAX - self.binder_depth())
    }

    fn substitute(&self, expr: &LambdaExpr, var: usize) -> (r: Result<LambdaExpr, SubstError>)
        decreases *self,
    {
        match self {
            LambdaExpr::Var(i) => {
                if *i < var {
                    Ok(LambdaExpr::Var(*i))
                } else if *i == var {
                    Ok(expr.clone())
                } else {
                    Ok(LambdaExpr::Var(*i - 1))
                }
            },
            LambdaExpr::Lambda(body) => {
                proof {
                    assert(self.binder_depth() == (**body).binder_depth() + 1);
                    expr.lemma_indices_below_mono(
                        usize::MAX - self.binder_depth(),
                        usize::MAX as int,
                    );
                    expr.lemma_shift_indices_below(0, 1, usize::MAX - self.binder_depth());
                    expr.lemma_shift_binder_depth(0, 1);
                }
                let shifted = expr.increment_indices();
                match (**body).substitute(&shifted, var + 1) {
                    Ok(b) => Ok(LambdaExpr::Lambda(Box::new(b))),
                    Err(e) => Err(e),
                }
            },
            LambdaExpr::App(func, arg) => {
                proof {
                    assert((**func).binder_depth() <= self.binder_depth());
                    assert((**arg).binder_depth() <= self.binder_depth());
                    expr.lemma_indices_below_mono(
                        usize::MAX - self.binder_depth(),
                        usize::MAX - (**func).binder_depth(),
                    );
                    expr.lemma_indices_below_mono(
                        usize::MAX - self.binder_depth(),
                        usize::MAX - (**arg).binder_depth(),
                    );
                }
                match (**func).substitute(expr, var) {
                    Ok(f) => match (**arg).substitute(expr, var) {
                        Ok(a) => Ok(LambdaExpr::App(Box::new(f), Box::new(a))),
                        Err(e) => Err(e),
                    },
                    Err(e) => Err(e),
                }
            },
        }
    }
}

impl ExactEq for LambdaExpr {
    fn exact_eq(&self, other: &Self) -> (r: bool)
        decreases *self,
    {
        match (self, other) {
            (LambdaExpr::Var(i), LambdaExpr::Var(j)) => *i == *j,
            (LambdaExpr::Lambda(a), LambdaExpr::Lambda(b)) => (**a).exact_eq(&**b),
            (LambdaExpr::App(a, b), LambdaExpr::App(c, d)) => (**a).exact_eq(&**c) && (
            **b).exact_eq(&**d),
            _ => false,
        }
    }
}

impl AutoContextualEq<Option<LambdaExpr>, ListContext<Option<LambdaExpr>>> for LambdaExpr {
    type Impl = NormalFormEq<LambdaExpr>;
}

impl Embed<LambdaExpr> for LambdaExpr {
    open spec fn spec_embed(self) -> LambdaExpr {
        self
    }

    fn embed(self) -> (r: LambdaExpr) {
        self
    }
}

impl Evaluate for LambdaExpr {
    type Target = LambdaExpr;

    type Error = EvalError;

    type Context = ListContext<Option<LambdaExpr>>;

    open spec fn spec_evaluate(self, entries: Seq<Option<LambdaExpr>>, under_binders: bool) -> Result<
        LambdaExpr,
        EvalError,
    >
        decreases self,
    {
        match self {
            LambdaExpr::Var(i) => match skewed_lookup(entries, i as int) {
                Some(Some(v)) => Ok(v),
                Some(None) => Ok(LambdaExpr::Var(i)),
                None => Ok(LambdaExpr::Var(i)),
            },
            LambdaExpr::Lambda(body) => {
                if under_binders {
                    match (*body).spec_evaluate(seq![None] + entries, true) {
                        Ok(b) => Ok(LambdaExpr::Lambda(Box::new(b))),
                        Err(e) => Err(e),
                    }
                } else {
                    Ok(LambdaExpr::Lambda(body))
                }
            },
            LambdaExpr::App(func, arg) => match (*func).spec_evaluate(entries, under_binders) {
                Ok(f) => match (*arg).spec_evaluate(entries, under_binders) {
                    Ok(a) => match f {
                        LambdaExpr::Lambda(b) => match (*b).spec_substitute(a, 0) {
                            Ok(t) => Ok(t),
                            Err(e) => Err(EvalError::SubstError(e)),
                        },
                        _ => Ok(LambdaExpr::App(Box::new(f), Box::new(a))),
                    },
                    Err(e) => Err(e),
                },
                Err(e) => Err(e),
            },
        }
    }

    open spec fn eval_req(self, entries: Seq<Option<LambdaExpr>>, under_binders: bool) -> bool
        decreases self,
    {
        match self {
            LambdaExpr::Var(i) => (i as int) < entries.len() ==> {
                &&& i < usize::MAX
                &&& entries[i as int].binder_depth() <= usize::MAX
                &&& entries[i as int].indices_below(usize::MAX - (i as int))
            },
            LambdaExpr::Lambda(body) => under_binders ==> (*body).eval_req(
                seq![None] + entries,
                true,
            ),
            LambdaExpr::App(func, arg) => {
                &&& (*func).eval_req(entries, under_binders)
                &&& (*arg).eval_req(entries, under_binders)
                &&& (match (
                    (*func).spec_evaluate(entries, under_binders),
                    (*arg).spec_evaluate(entries, under_binders),
                ) {
                    (Ok(f), Ok(a)) => (f matches LambdaExpr::Lambda(b) ==> (*b).subst_req(a, 0)),
                    _ => true,
                })
            },
        }
    }

    fn evaluate(&self, ctx: &ListContext<Option<LambdaExpr>>, under_binders: bool) -> (r: Result<
        LambdaExpr,
        EvalError,
    >)
        decreases *self,
    {
        match self {
            LambdaExpr::Var(i) => match ctx.get_shifted(*i) {
                Some(Some(v)) => Ok(v),
                Some(None) => Ok(LambdaExpr::Var(*i)),
                None => Ok(LambdaExpr::Var(*i)),
            },
            LambdaExpr::Lambda(body) => {
                if under_binders {
                    let extended = ctx.append(None);
                    match (**body).evaluate(&extended, true) {
                        Ok(b) => Ok(LambdaExpr::Lambda(Box::new(b))),
                        Err(e) => Err(e),
                    }
                } else {
                    Ok(LambdaExpr::Lambda(Box::new((**body).clone())))
                }
            },
            LambdaExpr::App(func, arg) => match (**func).evaluate(ctx, under_binders) {
                Ok(f) => match (**arg).evaluate(ctx, under_binders) {
                    Ok(a) => match f {
                        LambdaExpr::Lambda(b) => match (*b).substitute(&a, 0) {
                            Ok(t) => Ok(t),
                            Err(e) => Err(EvalError::SubstError(e)),
                        },
                        stuck => Ok(LambdaExpr::App(Box::new(stuck), Box::new(a))),
                    },
                    Err(e) => Err(e),
                },
                Err(e) => Err(e),
            },
        }
    }
}

/// Normal-form equivalence agreement: under the normal-form strategy, two
/// terms whose evaluations both succeed are judged equivalent exactly when
/// their normal forms — what `normalise` returns for them — are
/// syntactically equal; an evaluation failure becomes the strategy's
/// failure, the left side reported first.
pub proof fn lemma_normal_form_equiv_agreement(
    entries: Seq<Option<LambdaExpr>>,
    x: LambdaExpr,
    y: LambdaExpr,
)
    ensures
        (match (x.spec_evaluate(entries, true), y.spec_evaluate(entries, true)) {
            (Ok(xn), Ok(yn)) => <LambdaExpr as ContextualEq<
                Option<LambdaExpr>,
                ListContext<Option<LambdaExpr>>,
            >>::spec_equiv(entries, x, y) == Ok::<bool, EvalError>(
                xn.spec_embed() == yn.spec_embed(),
            ),
            (Err(e), _) => <LambdaExpr as ContextualEq<
                Option<LambdaExpr>,
                ListContext<Option<LambdaExpr>>,
            >>::spec_equiv(entries, x, y) == Err::<bool, EvalError>(e),
            (Ok(_), Err(e)) => <LambdaExpr as ContextualEq<
                Option<LambdaExpr>,
                ListContext<Option<LambdaExpr>>,
            >>::spec_equiv(entries, x, y) == Err::<bool, EvalError>(e),
        }),
{
}

} // verus!
