//! Contextual equivalence: deciding whether two attribute values are
//! equivalent relative to a context, either syntactically or by comparing
//! normal forms.

use vstd::prelude::*;

use core::marker::PhantomData;

use crate::context::Context;
use crate::evaluate::Evaluate;
use crate::DefaultError;

verus! {

/// Decidable structural equality, supplied by a term family's author with an
/// exact contract: the verdict is structural (spec-level) equality of the two
/// values.
pub trait ExactEq: Sized {
    /// Decide whether `self` and `other` are structurally equal.
    fn exact_eq(&self, other: &Self) -> (r: bool)
        ensures
            r == (*self == *other),
    ;
}

/// Equivalence of two values relative to a context.
///
/// This is the judgement a checking rule falls back on when it verifies a
/// synthesized attribute against an expected one.
pub trait ContextualEq<Entry, Ctx: Context<Entry>>: Sized {
    /// The verdict of the comparison (most often `bool`).
    type Check;

    /// The type of errors the comparison may raise.
    type Error;

    /// Model of the comparison, relative to the entries of the context.
    spec fn spec_equiv(entries: Seq<Entry>, lhs: Self, rhs: Self) -> Result<
        Self::Check,
        Self::Error,
    >;

    /// The conditions under which the comparison is defined; each
    /// implementation states its own.
    spec fn equiv_req(entries: Seq<Entry>, lhs: Self, rhs: Self) -> bool;

    /// Compare `lhs` and `rhs` under `ctx`.
    fn equiv(ctx: &Ctx, lhs: &Self, rhs: &Self) -> (r: Result<Self::Check, Self::Error>)
        requires
            Self::equiv_req(ctx.entries(), *lhs, *rhs),
        ensures
            r == Self::spec_equiv(ctx.entries(), *lhs, *rhs),
    ;
}

/// A strategy deciding contextual equivalence of `T` values. Types opt into
/// a strategy through [`AutoContextualEq`].
pub trait AutoContextualEqImpl<Entry, Ctx: Context<Entry>, T>: Sized {
    /// The verdict of the comparison.
    type Check;

    /// The type of errors the comparison may raise.
    type Error;

    /// Model of the comparison, relative to the entries of the context.
    spec fn spec_equiv(entries: Seq<Entry>, lhs: T, rhs: T) -> Result<Self::Check, Self::Error>;

    /// The conditions under which the comparison is defined.
    spec fn equiv_req(entries: Seq<Entry>, lhs: T, rhs: T) -> bool;

    /// Compare `lhs` and `rhs` under `ctx`.
    fn equiv(ctx: &Ctx, lhs: &T, rhs: &T) -> (r: Result<Self::Check, Self::Error>)
        requires
            Self::equiv_req(ctx.entries(), *lhs, *rhs),
        ensures
            r == Self::spec_equiv(ctx.entries(), *lhs, *rhs),
    ;
}

/// The syntactic strategy: plain structural equality, ignoring the context;
/// it never fails.
pub struct SyntacticEq<T: ExactEq>(PhantomData<T>);

/// The normal-form strategy: evaluate both sides under the context (moving
/// under binders), then compare the results structurally; an evaluation
/// failure on the left is reported before one on the right.
pub struct NormalFormEq<T>(PhantomData<T>) where T: Evaluate, T::Target: ExactEq;

impl<Entry, Ctx: Context<Entry>, T: ExactEq> AutoContextualEqImpl<Entry, Ctx, T> for SyntacticEq<
    T,
> {
    type Check = bool;

    type Error = DefaultError;

    open spec fn spec_equiv(entries: Seq<Entry>, lhs: T, rhs: T) -> Result<bool, DefaultError> {
        Ok(lhs == rhs)
    }

    open spec fn equiv_req(entries: Seq<Entry>, lhs: T, rhs: T) -> bool {
        true
    }

    fn equiv(ctx: &Ctx, lhs: &T, rhs: &T) -> (r: Result<bool, DefaultError>) {
        Ok(lhs.exact_eq(rhs))
    }
}

impl<T: Evaluate> AutoContextualEqImpl<Option<T::Target>, T::Context, T> for NormalFormEq<
    T,
> where T::Target: ExactEq {
    type Check = bool;

    type Error = T::Error;

    open spec fn spec_equiv(entries: Seq<Option<T::Target>>, lhs: T, rhs: T) -> Result<
        bool,
        T::Error,
    > {
        match (lhs.spec_evaluate(entries, true), rhs.spec_evaluate(entries, true)) {
            (Err(e), _) => Err(e),
            (Ok(_), Err(e)) => Err(e),
            (Ok(l), Ok(r)) => Ok(l == r),
        }
    }

    open spec fn equiv_req(entries: Seq<Option<T::Target>>, lhs: T, rhs: T) -> bool {
        &&& lhs.eval_req(entries, true)
        &&& rhs.eval_req(entries, true)
    }

    fn equiv(ctx: &T::Context, lhs: &T, rhs: &T) -> (r: Result<bool, T::Error>) {
        match lhs.evaluate(ctx, true) {
            Err(e) => Err(e),
            Ok(l) => match rhs.evaluate(ctx, true) {
                Err(e) => Err(e),
                Ok(r2) => Ok(l.exact_eq(&r2)),
            },
        }
    }
}

/// Opting a type into a contextual-equivalence strategy: the chosen
/// [`AutoContextualEqImpl`] becomes the type's [`ContextualEq`].
pub trait AutoContextualEq<Entry, Ctx: Context<Entry>>: Sized {
    /// The chosen strategy.
    type Impl: AutoContextualEqImpl<Entry, Ctx, Self>;
}

impl<Entry, Ctx: Context<Entry>, T: AutoContextualEq<Entry, Ctx>> ContextualEq<Entry, Ctx> for T {
    type Check = <T::Impl as AutoContextualEqImpl<Entry, Ctx, T>>::Check;

    type Error = <T::Impl as AutoContextualEqImpl<Entry, Ctx, T>>::Error;

    open spec fn spec_equiv(entries: Seq<Entry>, lhs: T, rhs: T) -> Result<
        Self::Check,
        Self::Error,
    > {
        <T::Impl as AutoContextualEqImpl<Entry, Ctx, T>>::spec_equiv(entries, lhs, rhs)
    }

    open spec fn equiv_req(entries: Seq<Entry>, lhs: T, rhs: T) -> bool {
        <T::Impl as AutoContextualEqImpl<Entry, Ctx, T>>::equiv_req(entries, lhs, rhs)
    }

    fn equiv(ctx: &Ctx, lhs: &T, rhs: &T) -> (r: Result<Self::Check, Self::Error>) {
        T::Impl::equiv(ctx, lhs, rhs)
    }
}

} // verus!
