//! Context-relative reduction of a term to a target form, with
//! caller-controlled behaviour at binder boundaries.

use vstd::prelude::*;

use crate::context::{Context, PartialContext};
use crate::substitute::SubstError;

verus! {

/// Errors raised while evaluating a term.
#[derive(Clone, Debug, PartialEq, Eq)]
pub enum EvalError {
    SubstError(SubstError),
}

impl From<SubstError> for EvalError {
    fn from(value: SubstError) -> (r: Self) {
        EvalError::SubstError(value)
    }
}

impl vstd::std_specs::convert::FromSpecImpl<SubstError> for EvalError {
    open spec fn obeys_from_spec() -> bool {
        true
    }

    open spec fn from_spec(v: SubstError) -> EvalError {
        EvalError::SubstError(v)
    }
}

/// Embedding of an evaluation result back into the term family it came from,
/// supplied once by the family's author with an exact contract.
pub trait Embed<T>: Sized {
    /// Model of the embedding.
    spec fn spec_embed(self) -> T;

    /// Embed the value.
    fn embed(self) -> (r: T)
        ensures
            r == self.spec_embed(),
    ;
}

/// Context-relative reduction to a target form.
///
/// The context entries are optional: `Some(v)` makes a variable position
/// resolve to `v` (with the index-skew shift applied), `None` marks the
/// position as an unresolved, opaque bound variable, which is exactly how
/// positions bound by the binders the evaluation moves under are recorded.
///
/// With `under_binders == false`, binder-classified children are kept
/// verbatim (surface reduction: the structure under a binder is preserved,
/// not traversed). With `under_binders == true`, a binder child is evaluated
/// in the context extended with a `None` placeholder, which keeps the
/// free-variable bookkeeping consistent while normalizing under the binder.
///
/// Evaluation makes one bottom-up pass: each constructor's children are
/// evaluated first, then the constructor's own reduction rule is applied to
/// the evaluated children (for example, substituting an evaluated argument
/// into the body of an evaluated function position), or the node is rebuilt
/// from the evaluated children when no rule matches.
pub trait Evaluate: Sized {
    /// The form evaluation reduces to. For most term families this is the
    /// family itself.
    type Target;

    /// The type of errors which may occur during evaluation.
    type Error;

    /// The context type evaluation threads through; its entries are optional
    /// target values: `Some` to resolve a position, `None` to keep it
    /// opaque.
    type Context: PartialContext<Self::Target>;

    /// Model of evaluation, relative to the entries of the context.
    spec fn spec_evaluate(self, entries: Seq<Option<Self::Target>>, under_binders: bool) -> Result<
        Self::Target,
        Self::Error,
    >;

    /// The machine-limit side conditions along the evaluation path; each term
    /// family states its own.
    spec fn eval_req(self, entries: Seq<Option<Self::Target>>, under_binders: bool) -> bool;

    /// Evaluate the term under the given context.
    fn evaluate(&self, ctx: &Self::Context, under_binders: bool) -> (r: Result<
        Self::Target,
        Self::Error,
    >)
        requires
            self.eval_req(ctx.entries(), under_binders),
        ensures
            r == self.spec_evaluate(ctx.entries(), under_binders),
    ;

    /// Evaluate the term under the empty context.
    fn evaluate_closed(&self, under_binders: bool) -> (r: Result<Self::Target, Self::Error>)
        requires
            self.eval_req(Seq::<Option<Self::Target>>::empty(), under_binders),
        ensures
            r == self.spec_evaluate(Seq::<Option<Self::Target>>::empty(), under_binders),
    {
        self.evaluate(&Self::Context::empty(), under_binders)
    }

    /// Evaluate, then embed the result back into the term family.
    fn normalise(&self, ctx: &Self::Context, under_binders: bool) -> (r: Result<Self, Self::Error>) where
        Self::Target: Embed<Self>

        requires
            self.eval_req(ctx.entries(), under_binders),
        ensures
            (match self.spec_evaluate(ctx.entries(), under_binders) {
                Ok(t) => r == Ok::<Self, Self::Error>(t.spec_embed()),
                Err(e) => r == Err::<Self, Self::Error>(e),
            }),
    {
        match self.evaluate(ctx, under_binders) {
            Ok(t) => Ok(t.embed()),
            Err(e) => Err(e),
        }
    }

    /// Evaluate under the empty context, then embed the result back into the
    /// term family.
    fn normalise_closed(&self, under_binders: bool) -> (r: Result<Self, Self::Error>) where
        Self::Target: Embed<Self>

        requires
            self.eval_req(Seq::<Option<Self::Target>>::empty(), under_binders),
        ensures
            (match self.spec_evaluate(Seq::<Option<Self::Target>>::empty(), under_binders) {
                Ok(t) => r == Ok::<Self, Self::Error>(t.spec_embed()),
                Err(e) => r == Err::<Self, Self::Error>(e),
            }),
    {
        self.normalise(&Self::Context::empty(), under_binders)
    }
}

impl<T: Evaluate> Evaluate for Box<T> {
    type Target = T::Target;

    type Error = T::Error;

    type Context = T::Context;

    open spec fn spec_evaluate(self, entries: Seq<Option<T::Target>>, under_binders: bool) -> Result<
        T::Target,
        T::Error,
    > {
        (*self).spec_evaluate(entries, under_binders)
    }

    open spec fn eval_req(self, entries: Seq<Option<T::Target>>, under_binders: bool) -> bool {
        (*self).eval_req(entries, under_binders)
    }

    fn evaluate(&self, ctx: &T::Context, under_binders: bool) -> (r: Result<T::Target, T::Error>) {
        (**self).evaluate(ctx, under_binders)
    }
}

} // verus!
