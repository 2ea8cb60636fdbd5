//! Capture-avoiding substitution of an expression for a de Bruijn variable.

use vstd::prelude::*;

verus! {

/// A name for a kind of term, quoted by substitution error reports.
///
/// Term families declare the label once; [`SubstError::new`] then reports the
/// expected and actual kinds of a failed substitution by these labels.
pub trait SubstKind {
    /// The label as a sequence of characters.
    spec fn spec_kind_name() -> Seq<char>;

    /// The label itself.
    fn kind_name() -> (r: &'static str)
        ensures
            r@ == Self::spec_kind_name(),
    ;
}

impl SubstKind for String {
    open spec fn spec_kind_name() -> Seq<char> {
        "String"@
    }

    fn kind_name() -> (r: &'static str) {
        "String"
    }
}

/// The error raised when a substitution would place an expression of one kind
/// into a variable belonging to another kind, and no conversion between the
/// two applies. It identifies both kinds, and is always recoverable by the
/// caller: substitution propagates it and nothing more.
#[derive(Debug, Clone, PartialEq, Eq)]
pub struct SubstError {
    substitutee_kind: &'static str,
    substitutand_kind: &'static str,
}

impl SubstError {
    /// The kind of the expression that was being substituted in.
    pub closed spec fn spec_substitutee_kind(self) -> Seq<char> {
        self.substitutee_kind@
    }

    /// The kind of the target the expression had to convert into.
    pub closed spec fn spec_substitutand_kind(self) -> Seq<char> {
        self.substitutand_kind@
    }

    /// Build the error for a substitution of a `T` expression into a variable
    /// of the `U` family.
    pub fn new<T: SubstKind, U: SubstKind>() -> (r: Self)
        ensures
            r.spec_substitutee_kind() == T::spec_kind_name(),
            r.spec_substitutand_kind() == U::spec_kind_name(),
    {
        SubstError { substitutee_kind: T::kind_name(), substitutand_kind: U::kind_name() }
    }

    /// The expected-versus-actual report, as the two kind labels.
    pub fn kinds(&self) -> (r: (&'static str, &'static str))
        ensures
            r.0@ == self.spec_substitutee_kind(),
            r.1@ == self.spec_substitutand_kind(),
    {
        (self.substitutee_kind, self.substitutand_kind)
    }
}

/// A syntax node which admits a substitution operation.
pub trait Substitute<SubstExpr> {
    /// The result of substituting an expression for a variable in this term.
    /// For most term types this is `Self`; for a variable-wrapper type it is
    /// the host family the wrapper's variables stand inside.
    type Target;

    /// The type of errors which may occur during substitution.
    type Error;

    /// Model of substitution: the result of replacing every variable matching
    /// `var` by `expr`, decrementing the indices above `var` (the binder that
    /// `var` pointed at is consumed), and incrementing the free indices of
    /// `expr` each time the substitution moves under a binder.
    spec fn spec_substitute(self, expr: SubstExpr, var: int) -> Result<Self::Target, Self::Error>;

    /// The machine-limit side conditions under which `substitute` is defined;
    /// each term family states its own.
    spec fn subst_req(self, expr: SubstExpr, var: int) -> bool;

    /// Substitute `expr` for every variable in the term carrying the de
    /// Bruijn index `var`.
    fn substitute(&self, expr: &SubstExpr, var: usize) -> (r: Result<Self::Target, Self::Error>)
        requires
            self.subst_req(*expr, var as int),
        ensures
            r == self.spec_substitute(*expr, var as int),
    ;
}

impl<T: Substitute<U>, U> Substitute<U> for Box<T> {
    type Target = Box<T::Target>;

    type Error = T::Error;

    open spec fn spec_substitute(self, expr: U, var: int) -> Result<Self::Target, Self::Error> {
        match (*self).spec_substitute(expr, var) {
            Ok(t) => Ok(Box::new(t)),
            Err(e) => Err(e),
        }
    }

    open spec fn subst_req(self, expr: U, var: int) -> bool {
        (*self).subst_req(expr, var)
    }

    fn substitute(&self, expr: &U, var: usize) -> (r: Result<Self::Target, Self::Error>) {
        match (**self).substitute(expr, var) {
            Ok(t) => Ok(Box::new(t)),
            Err(e) => Err(e),
        }
    }
}

} // verus!
