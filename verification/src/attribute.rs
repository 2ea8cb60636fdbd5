//! The bidirectional attribute protocol: synthesis (bottom-up), checking
//! (top-down), partial synthesis, and the composition rule deriving checking
//! from synthesis plus contextual equivalence.
//!
//! Rule bodies are written from four primitives: [`lookup`] resolves a
//! context position with the index-skew shift; recursive `synth` and `check`
//! calls visit children; and binding an entry is extending the context with
//! [`Context::append`] for the extent of the rule body, which is exactly what
//! the per-constructor implementations in the concrete term modules do.

use vstd::prelude::*;

use crate::context::{skewed_lookup, Context};
use crate::contextual_eq::ContextualEq;
use crate::debruijn_indexed::DeBruijnIndexed;
use crate::DefaultError;

verus! {

/// Errors of the attribute protocol.
#[derive(Clone, Debug, PartialEq, Eq, Structural)]
pub enum AttrError {
    /// A context lookup past the end of the context.
    UnboundVariable,
    /// A non-exhaustive synthesis or checking rule failed to match at a node.
    RuleNotMatched,
    /// An opaque failure raised by another capability inside a rule body.
    UserError(DefaultError),
}

impl From<DefaultError> for AttrError {
    fn from(value: DefaultError) -> (r: Self) {
        AttrError::UserError(value)
    }
}

impl vstd::std_specs::convert::FromSpecImpl<DefaultError> for AttrError {
    open spec fn obeys_from_spec() -> bool {
        true
    }

    open spec fn from_spec(v: DefaultError) -> AttrError {
        AttrError::UserError(v)
    }
}

/// Model of the `lookup` rule primitive: position `var` of the context with
/// the index-skew shift applied, or `UnboundVariable` past the end.
pub open spec fn spec_lookup<Entry: DeBruijnIndexed>(entries: Seq<Entry>, var: int) -> Result<
    Entry,
    AttrError,
> {
    match skewed_lookup(entries, var) {
        Some(e) => Ok(e),
        None => Err(AttrError::UnboundVariable),
    }
}

/// The `lookup` rule primitive: resolve the context entry at `var` with the
/// index-skew shift; a position past the end is an unbound variable.
pub fn lookup<Entry: DeBruijnIndexed, Ctx: Context<Entry>>(ctx: &Ctx, var: usize) -> (r: Result<
    Entry,
    AttrError,
>)
    requires
        (var as int) < ctx.entries().len() ==> {
            &&& var < usize::MAX
            &&& ctx.entries()[var as int].binder_depth() <= usize::MAX
            &&& ctx.entries()[var as int].indices_below(usize::MAX - (var as int))
        },
    ensures
        r == spec_lookup(ctx.entries(), var as int),
{
    match ctx.get_shifted(var) {
        Some(e) => Ok(e),
        None => Err(AttrError::UnboundVariable),
    }
}

/// A term type which can synthesize an attribute of type `Attr`, bottom-up,
/// from its own structure.
pub trait SynthAttribute<Attr>: Sized {
    /// The type of errors synthesis may raise.
    type Error;

    /// The type of the context entries.
    type Entry;

    /// The context type the synthesis threads through.
    type Ctx: Context<Self::Entry>;

    /// Model of synthesis, relative to the entries of the context.
    spec fn spec_synth(self, entries: Seq<Self::Entry>) -> Result<Attr, Self::Error>;

    /// The conditions under which synthesis is defined; each term family
    /// states its own.
    spec fn synth_req(self, entries: Seq<Self::Entry>) -> bool;

    /// Synthesize the attribute of the term under `ctx`.
    fn synth(&self, ctx: &Self::Ctx) -> (r: Result<Attr, Self::Error>)
        requires
            self.synth_req(ctx.entries()),
        ensures
            r == self.spec_synth(ctx.entries()),
    ;

    /// Synthesize the attribute of the term under the empty context.
    fn synth_closed(&self) -> (r: Result<Attr, Self::Error>)
        requires
            self.synth_req(Seq::<Self::Entry>::empty()),
        ensures
            r == self.spec_synth(Seq::<Self::Entry>::empty()),
    {
        self.synth(&Self::Ctx::empty())
    }
}

/// A term type which can attempt synthesis: `None` signals that the
/// construct has no synthesis rule and checking should be tried instead. It
/// is the one sanctioned soft failure of the protocol.
pub trait PartialSynthAttribute<Attr>: Sized {
    /// The type of errors synthesis may raise.
    type Error;

    /// The type of the context entries.
    type Entry;

    /// The context type the synthesis threads through.
    type Ctx: Context<Self::Entry>;

    /// Model of partial synthesis, relative to the entries of the context.
    spec fn spec_try_synth(self, entries: Seq<Self::Entry>) -> Result<Option<Attr>, Self::Error>;

    /// The conditions under which partial synthesis is defined.
    spec fn try_synth_req(self, entries: Seq<Self::Entry>) -> bool;

    /// Attempt to synthesize the attribute of the term under `ctx`.
    fn try_synth(&self, ctx: &Self::Ctx) -> (r: Result<Option<Attr>, Self::Error>)
        requires
            self.try_synth_req(ctx.entries()),
        ensures
            r == self.spec_try_synth(ctx.entries()),
    ;

    /// Attempt to synthesize the attribute of the term under the empty
    /// context.
    fn try_synth_closed(&self) -> (r: Result<Option<Attr>, Self::Error>)
        requires
            self.try_synth_req(Seq::<Self::Entry>::empty()),
        ensures
            r == self.spec_try_synth(Seq::<Self::Entry>::empty()),
    {
        self.try_synth(&Self::Ctx::empty())
    }
}

/// A term type whose attribute can be checked, top-down, against an expected
/// value.
pub trait CheckAttribute<Attr>: Sized {
    /// The verdict of a check (most often `bool`).
    type Check;

    /// The type of errors checking may raise.
    type Error;

    /// The type of the context entries.
    type Entry;

    /// The context type the check threads through.
    type Ctx: Context<Self::Entry>;

    /// Model of checking, relative to the entries of the context.
    spec fn spec_check(self, attr: Attr, entries: Seq<Self::Entry>) -> Result<
        Self::Check,
        Self::Error,
    >;

    /// The conditions under which checking is defined.
    spec fn check_req(self, attr: Attr, entries: Seq<Self::Entry>) -> bool;

    /// Check the term against the expected attribute under `ctx`.
    fn check(&self, attr: &Attr, ctx: &Self::Ctx) -> (r: Result<Self::Check, Self::Error>)
        requires
            self.check_req(*attr, ctx.entries()),
        ensures
            r == self.spec_check(*attr, ctx.entries()),
    ;

    /// Check the term against the expected attribute under the empty context.
    fn check_closed(&self, attr: &Attr) -> (r: Result<Self::Check, Self::Error>)
        requires
            self.check_req(*attr, Seq::<Self::Entry>::empty()),
        ensures
            r == self.spec_check(*attr, Seq::<Self::Entry>::empty()),
    {
        self.check(attr, &Self::Ctx::empty())
    }
}

/// Every synthesizing type attempts synthesis by synthesizing outright.
impl<Attr, Expr: SynthAttribute<Attr>> PartialSynthAttribute<Attr> for Expr {
    type Error = Expr::Error;

    type Entry = Expr::Entry;

    type Ctx = Expr::Ctx;

    open spec fn spec_try_synth(self, entries: Seq<Self::Entry>) -> Result<
        Option<Attr>,
        Self::Error,
    > {
        match self.spec_synth(entries) {
            Ok(a) => Ok(Some(a)),
            Err(e) => Err(e),
        }
    }

    open spec fn try_synth_req(self, entries: Seq<Self::Entry>) -> bool {
        self.synth_req(entries)
    }

    fn try_synth(&self, ctx: &Self::Ctx) -> (r: Result<Option<Attr>, Self::Error>) {
        match self.synth(ctx) {
            Ok(a) => Ok(Some(a)),
            Err(e) => Err(e),
        }
    }
}

/// The composition rule of the protocol: a synthesizing type whose attribute
/// supports contextual equivalence checks by synthesizing and comparing the
/// result with the expected attribute.
impl<Expr, Attr> CheckAttribute<Attr> for Expr where
    Expr: SynthAttribute<Attr>,
    Attr: ContextualEq<Expr::Entry, Expr::Ctx>,
    Expr::Error: From<Attr::Error>,
 {
    type Check = Attr::Check;

    type Error = Expr::Error;

    type Entry = Expr::Entry;

    type Ctx = Expr::Ctx;

    open spec fn spec_check(self, attr: Attr, entries: Seq<Self::Entry>) -> Result<
        Self::Check,
        Self::Error,
    > {
        match self.spec_synth(entries) {
            Ok(a) => match Attr::spec_equiv(entries, a, attr) {
                Ok(c) => Ok(c),
                Err(e) => Err(
                    <Expr::Error as vstd::std_specs::convert::FromSpec<Attr::Error>>::from_spec(e),
                ),
            },
            Err(e) => Err(e),
        }
    }

    open spec fn check_req(self, attr: Attr, entries: Seq<Self::Entry>) -> bool {
        &&& self.synth_req(entries)
        &&& <Expr::Error as vstd::std_specs::convert::FromSpec<Attr::Error>>::obeys_from_spec()
        &&& (match self.spec_synth(entries) {
            Ok(a) => Attr::equiv_req(entries, a, attr),
            Err(_) => true,
        })
    }

    fn check(&self, attr: &Attr, ctx: &Self::Ctx) -> (r: Result<Self::Check, Self::Error>) {
        match self.synth(ctx) {
            Ok(a) => match Attr::equiv(ctx, &a, attr) {
                Ok(c) => Ok(c),
                Err(e) => Err(From::from(e)),
            },
            Err(e) => Err(e),
        }
    }
}

/// A term type taking part in the full bidirectional discipline: it attempts
/// synthesis and falls back to checking.
pub trait BidirAttribute<Attr>: PartialSynthAttribute<Attr> + CheckAttribute<Attr> {

}

impl<Expr, Attr> BidirAttribute<Attr> for Expr where
    Expr: SynthAttribute<Attr>,
    Attr: ContextualEq<Expr::Entry, Expr::Ctx>,
    Expr::Error: From<Attr::Error>,
 {

}

/// Synthesis implies checking: whenever a construct synthesizes an attribute
/// and its checking is derived by the composition rule, checking the
/// construct against the attribute it synthesized succeeds — as long as the
/// attribute's contextual equivalence is reflexive at that attribute.
pub proof fn lemma_synth_implies_check<Expr, Attr>(
    entries: Seq<Expr::Entry>,
    x: Expr,
    a: Attr,
) where
    Expr: SynthAttribute<Attr>,
    Attr: ContextualEq<Expr::Entry, Expr::Ctx, Check = bool>,
    Expr::Error: From<Attr::Error>,

    requires
        x.spec_try_synth(entries) == Ok::<Option<Attr>, Expr::Error>(Some(a)),
        Attr::spec_equiv(entries, a, a) == Ok::<bool, Attr::Error>(true),
    ensures
        x.spec_check(a, entries) == Ok::<bool, Expr::Error>(true),
{
}

} // verus!
