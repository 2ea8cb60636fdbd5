//! Persistent, append-only contexts mapping de Bruijn positions to entries,
//! with the index-skew shift applied on lookup.

use vstd::prelude::*;

use std::rc::Rc;

use crate::debruijn_indexed::DeBruijnIndexed;

verus! {

/// Lookup with the index-skew shift: position `var` holds the entry appended
/// `var + 1` binders out, so its free indices are incremented by `var + 1` to
/// be meaningful at the point of lookup. A position past the end resolves to
/// `None` (an unbound variable).
pub open spec fn skewed_lookup<Entry: DeBruijnIndexed>(entries: Seq<Entry>, var: int) -> Option<
    Entry,
> {
    if 0 <= var < entries.len() {
        Some(entries[var].spec_shift_from_by(0, var + 1))
    } else {
        None
    }
}

/// A persistent, append-only environment mapping position -> entry.
///
/// The model of a context is [`entries`](Self::entries), the sequence of its
/// entries from the innermost binder outwards: position 0 is the most recent
/// append. Appending never mutates the parent, so a parent context stays
/// valid and can be reused to visit independent sibling subterms.
pub trait Context<Entry>: Sized {
    /// The entries of the context, innermost (most recently appended) first.
    spec fn entries(self) -> Seq<Entry>;

    /// The empty context.
    fn empty() -> (r: Self)
        ensures
            r.entries() == Seq::<Entry>::empty(),
    ;

    /// Extend the context with one entry at position 0. The receiver is left
    /// untouched and remains valid.
    fn append(&self, variable: Entry) -> (r: Self)
        ensures
            r.entries() == seq![variable] + self.entries(),
    ;

    /// The entry at position `var`, exactly as it was appended (no shift), or
    /// `None` past the end.
    fn get<'a>(&'a self, var: usize) -> (r: Option<&'a Entry>)
        ensures
            match r {
                Some(e) => (var as int) < self.entries().len() && *e == self.entries()[var as int],
                None => (var as int) >= self.entries().len(),
            },
    ;

    /// The entry at position `var` with the index-skew shift applied: its
    /// free indices are incremented by `var + 1`, compensating for the entry
    /// having been recorded `var + 1` binders further out.
    fn get_shifted(&self, var: usize) -> (r: Option<Entry>) where Entry: DeBruijnIndexed
        requires
            (var as int) < self.entries().len() ==> {
                &&& var < usize::MAX
                &&& self.entries()[var as int].binder_depth() <= usize::MAX
                &&& self.entries()[var as int].indices_below(usize::MAX - (var as int))
            },
        ensures
            r == skewed_lookup(self.entries(), var as int),
    {
        match self.get(var) {
            Some(e) => Some(e.increment_indices_by(var + 1)),
            None => None,
        }
    }
}

/// A context whose entries are optional: `Some` entries resolve to a value,
/// `None` entries mark positions bound but unresolved. This is the shape of
/// context the evaluator works with.
pub trait PartialContext<Entry>: Context<Option<Entry>> {

}

impl<Entry, Ctx: Context<Option<Entry>>> PartialContext<Entry> for Ctx {

}

struct ContextNode<Entry> {
    entry: Entry,
    rest: Option<Rc<ContextNode<Entry>>>,
}

/// The entries reachable from a node of the shared list, innermost first.
spec fn chain_entries<Entry>(node: Option<Rc<ContextNode<Entry>>>) -> Seq<Entry>
    decreases node,
{
    match node {
        None => Seq::<Entry>::empty(),
        Some(n) => seq![n.entry] + chain_entries(n.rest),
    }
}

/// Relies on `Rc::clone`: the clone is a new handle to the same allocation,
/// so it carries the same value as the original.
#[verifier::external_body]
fn rc_dup<T>(rc: &Rc<T>) -> (r: Rc<T>)
    ensures
        r == *rc,
{
    Rc::clone(rc)
}

/// A [`Context`] backed by a persistent singly linked list with shared tails:
/// appending allocates one node and never touches the parent.
pub struct ListContext<Entry>(Option<Rc<ContextNode<Entry>>>);

impl<Entry> ListContext<Entry> {
    fn get_node<'a>(node: &'a Option<Rc<ContextNode<Entry>>>, var: usize) -> (r: Option<
        &'a Entry,
    >)
        ensures
            match r {
                Some(e) => (var as int) < chain_entries(*node).len() && *e == chain_entries(
                    *node,
                )[var as int],
                None => (var as int) >= chain_entries(*node).len(),
            },
        decreases chain_entries(*node).len(),
    {
        match node {
            None => None,
            Some(n) => {
                if var == 0 {
                    Some(&n.entry)
                } else {
                    Self::get_node(&n.rest, var - 1)
                }
            },
        }
    }
}

impl<Entry> Context<Entry> for ListContext<Entry> {
    closed spec fn entries(self) -> Seq<Entry> {
        chain_entries(self.0)
    }

    fn empty() -> (r: Self) {
        ListContext(None)
    }

    fn append(&self, variable: Entry) -> (r: Self) {
        let rest = match &self.0 {
            None => None,
            Some(rc) => Some(rc_dup(rc)),
        };
        ListContext(Some(Rc::new(ContextNode { entry: variable, rest })))
    }

    fn get<'a>(&'a self, var: usize) -> (r: Option<&'a Entry>) {
        Self::get_node(&self.0, var)
    }
}

/// Index-skew law: a context built as `empty().append(a).append(b)` has the
/// entry sequence `[b, a]`, so looking position 0 up yields `b` shifted by 1
/// and looking position 1 up yields `a` shifted by 2.
pub proof fn lemma_index_skew<Entry: DeBruijnIndexed>(a: Entry, b: Entry)
    ensures
        skewed_lookup(seq![b, a], 0) == Some(b.spec_shift_from_by(0, 1)),
        skewed_lookup(seq![b, a], 1) == Some(a.spec_shift_from_by(0, 2)),
        skewed_lookup(seq![b, a], 2) == None::<Entry>,
{
    assert(seq![b, a][0] == b);
    assert(seq![b, a][1] == a);
}

} // verus!
