//! Resolution of textual variable names into de Bruijn indices: the bridge
//! from surface syntax with names to the index-based terms the rest of the
//! toolkit works on.

use vstd::prelude::*;

use vstd::string::StringExecFns;

use crate::context::{Context, ListContext};

verus! {

/// The naming environment: the names of the binders in scope, innermost
/// first.
pub type NameContext = ListContext<String>;

/// Errors raised while resolving names.
#[derive(Debug, PartialEq, Eq)]
pub enum ResolveVarsError {
    UnboundVariable(String),
}

impl ResolveVarsError {
    /// A human-readable report of the failure.
    pub fn message(&self) -> (r: String)
        ensures
            (match self {
                ResolveVarsError::UnboundVariable(v) => r@ == "Unbound variable name: "@ + v@,
            }),
    {
        match self {
            ResolveVarsError::UnboundVariable(v) => String::from_str(
                "Unbound variable name: ",
            ).concat(v.as_str()),
        }
    }
}

/// The position of the first binder carrying `name`, innermost first.
pub open spec fn spec_resolve_name(names: Seq<String>, name: Seq<char>) -> Option<int>
    decreases names.len(),
{
    if names.len() == 0 {
        None
    } else if names[0]@ == name {
        Some(0)
    } else {
        match spec_resolve_name(names.drop_first(), name) {
            Some(i) => Some(i + 1),
            None => None,
        }
    }
}

/// Resolve `name` to the innermost binder position carrying it.
pub fn resolve_name(context: &NameContext, name: &String) -> (r: Option<usize>)
    requires
        context.entries().len() <= usize::MAX,
    ensures
        (match r {
            Some(i) => spec_resolve_name(context.entries(), name@) == Some(i as int),
            None => spec_resolve_name(context.entries(), name@) == None::<int>,
        }),
{
    let ghost names = context.entries();
    let mut i: usize = 0;
    proof {
        assert(names.skip(0) =~= names);
    }
    loop
        invariant
            context.entries() == names,
            i <= names.len(),
            names.len() <= usize::MAX,
            (match spec_resolve_name(names.skip(i as int), name@) {
                Some(k) => spec_resolve_name(names, name@) == Some(i + k),
                None => spec_resolve_name(names, name@) == None::<int>,
            }),
        decreases names.len() - i,
    {
        match context.get(i) {
            None => {
                return None;
            },
            Some(entry) => {
                proof {
                    assert(names.skip(i as int)[0] == names[i as int]);
                }
                if entry.eq(name) {
                    return Some(i);
                }
                proof {
                    assert(names.skip(i as int).drop_first() =~= names.skip(i as int + 1));
                }
                i = i + 1;
            },
        }
    }
}

/// A syntax tree whose named variable occurrences can be replaced by their
/// de Bruijn positions relative to a naming environment. A name not bound
/// anywhere in the environment is reported as unbound.
pub trait ResolveVars: Sized {
    /// Model of the resolution, relative to the names in scope.
    spec fn spec_resolve_vars(self, names: Seq<String>) -> Result<Self, ResolveVarsError>;

    /// The conditions under which resolution is defined; each term family
    /// states its own.
    spec fn resolve_vars_req(self, names: Seq<String>) -> bool;

    /// Resolve every named variable occurrence in the term.
    fn resolve_vars(&self, context: &NameContext) -> (r: Result<Self, ResolveVarsError>)
        requires
            self.resolve_vars_req(context.entries()),
        ensures
            r == self.spec_resolve_vars(context.entries()),
    ;
}

/// A surface lambda term: variables carry their name next to the index slot
/// the resolution fills in, and each binder records the name it binds.
#[derive(Debug, PartialEq)]
pub enum NamedTerm {
    Var(String, usize),
    Lambda(String, Box<NamedTerm>),
    App(Box<NamedTerm>, Box<NamedTerm>),
}

impl ResolveVars for NamedTerm {
    /// Per constructor: a variable's index becomes the innermost position of
    /// its name, and an unknown name is an unbound variable; a binder's body
    /// is resolved with the bound name in scope; an application resolves its
    /// two children in the same scope. Names themselves are metadata and are
    /// kept unchanged.
    open spec fn spec_resolve_vars(self, names: Seq<String>) -> Result<Self, ResolveVarsError>
        decreases self,
    {
        match self {
            NamedTerm::Var(name, _) => match spec_resolve_name(names, name@) {
                Some(i) => Ok(NamedTerm::Var(name, i as usize)),
                None => Err(ResolveVarsError::UnboundVariable(name)),
            },
            NamedTerm::Lambda(bound, body) => match (*body).spec_resolve_vars(
                seq![bound] + names,
            ) {
                Ok(b) => Ok(NamedTerm::Lambda(bound, Box::new(b))),
                Err(e) => Err(e),
            },
            NamedTerm::App(func, arg) => match (*func).spec_resolve_vars(names) {
                Ok(f) => match (*arg).spec_resolve_vars(names) {
                    Ok(a) => Ok(NamedTerm::App(Box::new(f), Box::new(a))),
                    Err(e) => Err(e),
                },
                Err(e) => Err(e),
            },
        }
    }

    open spec fn resolve_vars_req(self, names: Seq<String>) -> bool
        decreases self,
    {
        match self {
            NamedTerm::Var(_, _) => names.len() <= usize::MAX,
            NamedTerm::Lambda(bound, body) => (*body).resolve_vars_req(seq![bound] + names),
            NamedTerm::App(func, arg) => (*func).resolve_vars_req(names) && (
            *arg).resolve_vars_req(names),
        }
    }

    fn resolve_vars(&self, context: &NameContext) -> (r: Result<Self, ResolveVarsError>)
        decreases *self,
    {
        match self {
            NamedTerm::Var(name, _) => match resolve_name(context, name) {
                Some(i) => Ok(NamedTerm::Var(name.clone(), i)),
                None => Err(ResolveVarsError::UnboundVariable(name.clone())),
            },
            NamedTerm::Lambda(bound, body) => {
                let in_scope = context.append(bound.clone());
                match (**body).resolve_vars(&in_scope) {
                    Ok(b) => Ok(NamedTerm::Lambda(bound.clone(), Box::new(b))),
                    Err(e) => Err(e),
                }
            },
            NamedTerm::App(func, arg) => match (**func).resolve_vars(context) {
                Ok(f) => match (**arg).resolve_vars(context) {
                    Ok(a) => Ok(NamedTerm::App(Box::new(f), Box::new(a))),
                    Err(e) => Err(e),
                },
                Err(e) => Err(e),
            },
        }
    }
}

} // verus!
