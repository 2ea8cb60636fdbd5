//! A kernel for building bidirectional type checkers / attribute-evaluation
//! engines over de-Bruijn-indexed abstract syntax trees.
//!
//! The toolkit supplies five cooperating capabilities:
//!
//! * [`Context`](context::Context): a persistent, append-only environment with
//!   shift-aware lookup;
//! * [`DeBruijnIndexed`](debruijn_indexed::DeBruijnIndexed): remapping of free
//!   variable indices under a start offset;
//! * [`Substitute`](substitute::Substitute): capture-avoiding substitution of a
//!   term for a variable;
//! * [`Evaluate`](evaluate::Evaluate): context-relative reduction with
//!   caller-controlled behaviour at binder boundaries, and
//!   [`ContextualEq`](contextual_eq::ContextualEq) built on top of it;
//! * the bidirectional attribute protocol
//!   ([`attribute`]): synthesis, checking, partial synthesis and their
//!   composition rule.
//!
//! Term types are user supplied; each constructor field is classified as
//! metadata, variable, binder child or ordinary child, and the capability
//! implementations follow that classification constructor by constructor. The
//! modules holding concrete term families show the pattern in full.

use vstd::prelude::*;

pub mod attribute;
pub mod bidir_terms;
pub mod check_terms;
pub mod context;
pub mod contextual_eq;
pub mod debruijn_indexed;
pub mod eval_terms;
pub mod evaluate;
pub mod indexed_terms;
pub mod lambda_terms;
pub mod resolve_vars;
pub mod simple_types;
pub mod subst_terms;
pub mod substitute;
pub mod synth_terms;

pub use attribute::{AttrError, BidirAttribute, CheckAttribute, PartialSynthAttribute, SynthAttribute};
pub use context::{Context, ListContext, PartialContext};
pub use contextual_eq::ContextualEq;
pub use debruijn_indexed::DeBruijnIndexed;
pub use evaluate::{EvalError, Evaluate};
pub use substitute::{SubstError, Substitute};

verus! {

/// Fallback error type for capabilities that cannot fail, or whose failures
/// carry no information of their own.
#[derive(Clone, Debug, PartialEq, Eq, Structural)]
pub struct DefaultError;

} // verus!
