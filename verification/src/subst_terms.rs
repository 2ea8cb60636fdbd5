//! Term families exercising the [`Substitute`] capability: terms with no
//! variables at all, a bare variable wrapper substituting into a host family,
//! and a recursive self-substituting family.

use vstd::prelude::*;

use crate::substitute::{SubstError, SubstKind, Substitute};

verus! {

/// A term with no fields: substitution has nothing to do.
#[derive(Debug, PartialEq, Eq, Structural)]
pub struct Unit;

impl Substitute<Unit> for Unit {
    type Target = Unit;

    type Error = SubstError;

    open spec fn spec_substitute(self, expr: Unit, var: int) -> Result<Unit, SubstError> {
        Ok(Unit)
    }

    open spec fn subst_req(self, expr: Unit, var: int) -> bool {
        true
    }

    fn substitute(&self, expr: &Unit, var: usize) -> (r: Result<Unit, SubstError>) {
        Ok(Unit)
    }
}

/// As [`Unit`], with the substituted family spelled out as the term's own.
#[derive(Debug, PartialEq, Eq, Structural)]
pub struct UnitExplicitSelf;

impl Substitute<UnitExplicitSelf> for UnitExplicitSelf {
    type Target = UnitExplicitSelf;

    type Error = SubstError;

    open spec fn spec_substitute(self, expr: UnitExplicitSelf, var: int) -> Result<
        UnitExplicitSelf,
        SubstError,
    > {
        Ok(UnitExplicitSelf)
    }

    open spec fn subst_req(self, expr: UnitExplicitSelf, var: int) -> bool {
        true
    }

    fn substitute(&self, expr: &UnitExplicitSelf, var: usize) -> (r: Result<
        UnitExplicitSelf,
        SubstError,
    >) {
        Ok(UnitExplicitSelf)
    }
}

/// A term without variables which nonetheless admits substitution of an
/// unrelated family (here `String`).
#[derive(Debug, PartialEq, Eq, Structural)]
pub struct UnitExplicitOther;

impl Substitute<String> for UnitExplicitOther {
    type Target = UnitExplicitOther;

    type Error = SubstError;

    open spec fn spec_substitute(self, expr: String, var: int) -> Result<
        UnitExplicitOther,
        SubstError,
    > {
        Ok(UnitExplicitOther)
    }

    open spec fn subst_req(self, expr: String, var: int) -> bool {
        true
    }

    fn substitute(&self, expr: &String, var: usize) -> (r: Result<UnitExplicitOther, SubstError>) {
        Ok(UnitExplicitOther)
    }
}

/// A term admitting substitution both of `String` and of its own family.
#[derive(Debug, PartialEq, Eq, Structural)]
pub struct UnitExplicitBoth;

impl Substitute<String> for UnitExplicitBoth {
    type Target = UnitExplicitBoth;

    type Error = SubstError;

    open spec fn spec_substitute(self, expr: String, var: int) -> Result<
        UnitExplicitBoth,
        SubstError,
    > {
        Ok(UnitExplicitBoth)
    }

    open spec fn subst_req(self, expr: String, var: int) -> bool {
        true
    }

    fn substitute(&self, expr: &String, var: usize) -> (r: Result<UnitExplicitBoth, SubstError>) {
        Ok(UnitExplicitBoth)
    }
}

impl Substitute<UnitExplicitBoth> for UnitExplicitBoth {
    type Target = UnitExplicitBoth;

    type Error = SubstError;

    open spec fn spec_substitute(self, expr: UnitExplicitBoth, var: int) -> Result<
        UnitExplicitBoth,
        SubstError,
    > {
        Ok(UnitExplicitBoth)
    }

    open spec fn subst_req(self, expr: UnitExplicitBoth, var: int) -> bool {
        true
    }

    fn substitute(&self, expr: &UnitExplicitBoth, var: usize) -> (r: Result<
        UnitExplicitBoth,
        SubstError,
    >) {
        Ok(UnitExplicitBoth)
    }
}

/// A bare variable: one index, nothing else. Its substitutions land in the
/// host family [`VarOrString`].
#[derive(Clone, Copy, Debug, PartialEq, Eq, Structural)]
pub struct SimpleVarWrapper(pub usize);

/// A host family whose values are either a wrapped variable or a string.
#[derive(Debug, PartialEq)]
pub enum VarOrString {
    Var(SimpleVarWrapper),
    String(String),
}

impl Clone for VarOrString {
    fn clone(&self) -> (r: Self)
        ensures
            r == *self,
    {
        match self {
            VarOrString::Var(v) => VarOrString::Var(SimpleVarWrapper(v.0)),
            VarOrString::String(s) => VarOrString::String(s.clone()),
        }
    }
}

impl Substitute<VarOrString> for SimpleVarWrapper {
    type Target = VarOrString;

    type Error = SubstError;

    open spec fn spec_substitute(self, expr: VarOrString, var: int) -> Result<
        VarOrString,
        SubstError,
    > {
        if self.0 < var {
            Ok(VarOrString::Var(self))
        } else if self.0 == var {
            Ok(expr)
        } else {
            Ok(VarOrString::Var(SimpleVarWrapper((self.0 - 1) as usize)))
        }
    }

    open spec fn subst_req(self, expr: VarOrString, var: int) -> bool {
        true
    }

    fn substitute(&self, expr: &VarOrString, var: usize) -> (r: Result<VarOrString, SubstError>) {
        if self.0 < var {
            Ok(VarOrString::Var(SimpleVarWrapper(self.0)))
        } else if self.0 == var {
            Ok(expr.clone())
        } else {
            Ok(VarOrString::Var(SimpleVarWrapper(self.0 - 1)))
        }
    }
}

/// A recursive family over a single variable space: a variable, or a wrapper
/// around a smaller term.
#[derive(Debug, PartialEq)]
pub enum RecursiveVar {
    Var(usize),
    Wrap(Box<RecursiveVar>),
}

impl Clone for RecursiveVar {
    fn clone(&self) -> (r: Self)
        ensures
            r == *self,
        decreases *self,
    {
        match self {
            RecursiveVar::Var(i) => RecursiveVar::Var(*i),
            RecursiveVar::Wrap(t) => RecursiveVar::Wrap(Box::new((**t).clone())),
        }
    }
}

impl RecursiveVar {
    /// The number of wrappers around the innermost variable.
    pub open spec fn spec_len(self) -> nat
        decreases self,
    {
        match self {
            RecursiveVar::Var(_) => 0,
            RecursiveVar::Wrap(t) => (*t).spec_len() + 1,
        }
    }

    /// Count the wrappers around the innermost variable.
    pub fn len(&self) -> (r: usize)
        requires
            self.spec_len() <= usize::MAX,
        ensures
            r == self.spec_len(),
        decreases *self,
    {
        match self {
            RecursiveVar::Var(_) => 0,
            RecursiveVar::Wrap(t) => 1 + (**t).len(),
        }
    }
}

impl Substitute<RecursiveVar> for RecursiveVar {
    type Target = RecursiveVar;

    type Error = SubstError;

    open spec fn spec_substitute(self, expr: RecursiveVar, var: int) -> Result<
        RecursiveVar,
        SubstError,
    >
        decreases self,
    {
        match self {
            RecursiveVar::Var(i) => {
                if i < var {
                    Ok(RecursiveVar::Var(i))
                } else if i == var {
                    Ok(expr)
                } else {
                    Ok(RecursiveVar::Var((i - 1) as usize))
                }
            },
            RecursiveVar::Wrap(t) => match (*t).spec_substitute(expr, var) {
                Ok(t2) => Ok(RecursiveVar::Wrap(Box::new(t2))),
                Err(e) => Err(e),
            },
        }
    }

    open spec fn subst_req(self, expr: RecursiveVar, var: int) -> bool {
        true
    }

    fn substitute(&self, expr: &RecursiveVar, var: usize) -> (r: Result<RecursiveVar, SubstError>)
        decreases *self,
    {
        match self {
            RecursiveVar::Var(i) => {
                if *i < var {
                    Ok(RecursiveVar::Var(*i))
                } else if *i == var {
                    Ok(expr.clone())
                } else {
                    Ok(RecursiveVar::Var(*i - 1))
                }
            },
            RecursiveVar::Wrap(t) => match (**t).substitute(expr, var) {
                Ok(t2) => Ok(RecursiveVar::Wrap(Box::new(t2))),
                Err(e) => Err(e),
            },
        }
    }
}

impl SubstKind for RecursiveVar {
    open spec fn spec_kind_name() -> Seq<char> {
        "RecursiveVar"@
    }

    fn kind_name() -> (r: &'static str) {
        "RecursiveVar"
    }
}

} // verus!
