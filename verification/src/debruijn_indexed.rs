//! Terms whose free variables are de Bruijn indices, and the index-shifting
//! operation that keeps them consistent when binders are entered or removed.

use vstd::prelude::*;

verus! {

/// Syntax nodes which have free variables represented by de Bruijn indices.
///
/// Every constructor field of an implementing type is classified as exactly
/// one of: *metadata* (ignored by index operations), *variable* (a bare index,
/// or a value delegating to an inner variable), *binder* (a child living under
/// one additional bound position) or *ordinary* (a child at the same depth).
/// The classification is fixed at the definition of the type, and the spec
/// functions below are its mathematical model:
///
/// * [`spec_shift_from_by`](Self::spec_shift_from_by) describes shifting: a
///   variable index `i >= start` becomes `i + amount`, an index `i < start`
///   is untouched, metadata is untouched, and the start offset grows by one
///   when the shift moves under a binder;
/// * [`spec_get_var`](Self::spec_get_var) reports whether the node is itself a
///   bare variable occurrence, and with which index;
/// * [`indices_below`](Self::indices_below) bounds every index stored in the
///   term, which is what keeps the shifted indices within `usize`;
/// * [`binder_depth`](Self::binder_depth) bounds how far the start offset can
///   grow while the shift walks the term.
pub trait DeBruijnIndexed: Sized {
    /// Model of shifting: every variable index which is at least `start`
    /// (counting the extra binders the index sits under) is replaced by
    /// `index + amount`, truncated to `usize`; all other data is unchanged.
    spec fn spec_shift_from_by(self, start: int, amount: int) -> Self;

    /// Model of [`get_var`](Self::get_var): the index of the term when the
    /// term is itself a bare variable occurrence.
    spec fn spec_get_var(self) -> Option<usize>;

    /// Every variable index stored anywhere in the term is below `bound`.
    spec fn indices_below(self, bound: int) -> bool;

    /// The deepest nesting of binder-classified fields in the term.
    spec fn binder_depth(self) -> nat;

    /// Report whether this node is a bare variable occurrence, and if so its
    /// index.
    fn get_var(&self) -> (r: Option<usize>)
        ensures
            r == self.spec_get_var(),
    ;

    /// Increment every de Bruijn index in the term which is at least `start`
    /// by `amount`. This is required, for example, when adjusting indices in
    /// an expression which is moved under additional binders.
    fn increment_indices_from_by(&self, start: usize, amount: usize) -> (r: Self)
        requires
            start + self.binder_depth() <= usize::MAX,
            self.indices_below(usize::MAX - amount + 1),
        ensures
            r == self.spec_shift_from_by(start as int, amount as int),
    ;

    /// Increment every de Bruijn index in the term by `amount`.
    fn increment_indices_by(&self, amount: usize) -> (r: Self)
        requires
            self.binder_depth() <= usize::MAX,
            self.indices_below(usize::MAX - amount + 1),
        ensures
            r == self.spec_shift_from_by(0, amount as int),
    {
        self.increment_indices_from_by(0, amount)
    }

    /// Increment every de Bruijn index in the term by one, as needed when the
    /// term moves under one more binder.
    fn increment_indices(&self) -> (r: Self)
        requires
            self.binder_depth() <= usize::MAX,
            self.indices_below(usize::MAX as int),
        ensures
            r == self.spec_shift_from_by(0, 1),
    {
        self.increment_indices_by(1)
    }

    /// Shifting by zero leaves the term unchanged.
    proof fn lemma_shift_zero(self, start: int)
        ensures
            self.spec_shift_from_by(start, 0) == self,
    ;

    /// Two shifts at the same start compose into one shift by the sum, as
    /// long as no index overflows `usize` along the way.
    proof fn lemma_shift_compose(self, start: int, a: int, b: int)
        requires
            0 <= a,
            0 <= b,
            self.indices_below(usize::MAX - a - b + 1),
        ensures
            self.spec_shift_from_by(start, a).spec_shift_from_by(start, b)
                == self.spec_shift_from_by(start, a + b),
    ;

    /// A shift starting at or above a bound on the term's indices leaves the
    /// term unchanged: indices strictly below the start are never touched.
    proof fn lemma_shift_skips_below(self, bound: int, start: int, amount: int)
        requires
            self.indices_below(bound),
            bound <= start,
        ensures
            self.spec_shift_from_by(start, amount) == self,
    ;

    /// Shifting commutes with reading a bare variable occurrence: the shifted
    /// term is a variable exactly when the original is, and its index is the
    /// original index shifted.
    proof fn lemma_shift_get_var(self, start: int, amount: int)
        ensures
            self.spec_shift_from_by(start, amount).spec_get_var() == match self.spec_get_var() {
                Some(i) => Some(
                    if i >= start {
                        (i + amount) as usize
                    } else {
                        i
                    },
                ),
                None => None::<usize>,
            },
    ;
}

impl<T: DeBruijnIndexed> DeBruijnIndexed for Box<T> {
    open spec fn spec_shift_from_by(self, start: int, amount: int) -> Self {
        Box::new((*self).spec_shift_from_by(start, amount))
    }

    open spec fn spec_get_var(self) -> Option<usize> {
        (*self).spec_get_var()
    }

    open spec fn indices_below(self, bound: int) -> bool {
        (*self).indices_below(bound)
    }

    open spec fn binder_depth(self) -> nat {
        (*self).binder_depth()
    }

    fn get_var(&self) -> (r: Option<usize>) {
        (**self).get_var()
    }

    fn increment_indices_from_by(&self, start: usize, amount: usize) -> (r: Self) {
        Box::new((**self).increment_indices_from_by(start, amount))
    }

    proof fn lemma_shift_zero(self, start: int) {
        (*self).lemma_shift_zero(start);
    }

    proof fn lemma_shift_compose(self, start: int, a: int, b: int) {
        (*self).lemma_shift_compose(start, a, b);
    }

    proof fn lemma_shift_skips_below(self, bound: int, start: int, amount: int) {
        (*self).lemma_shift_skips_below(bound, start, amount);
    }

    proof fn lemma_shift_get_var(self, start: int, amount: int) {
        (*self).lemma_shift_get_var(start, amount);
    }
}

impl<T: DeBruijnIndexed> DeBruijnIndexed for Option<T> {
    open spec fn spec_shift_from_by(self, start: int, amount: int) -> Self {
        match self {
            None => None,
            Some(t) => Some(t.spec_shift_from_by(start, amount)),
        }
    }

    open spec fn spec_get_var(self) -> Option<usize> {
        match self {
            None => None,
            Some(t) => t.spec_get_var(),
        }
    }

    open spec fn indices_below(self, bound: int) -> bool {
        match self {
            None => true,
            Some(t) => t.indices_below(bound),
        }
    }

    open spec fn binder_depth(self) -> nat {
        match self {
            None => 0,
            Some(t) => t.binder_depth(),
        }
    }

    fn get_var(&self) -> (r: Option<usize>) {
        match self {
            None => None,
            Some(t) => t.get_var(),
        }
    }

    fn increment_indices_from_by(&self, start: usize, amount: usize) -> (r: Self) {
        match self {
            None => None,
            Some(t) => Some(t.increment_indices_from_by(start, amount)),
        }
    }

    proof fn lemma_shift_zero(self, start: int) {
        match self {
            None => {},
            Some(t) => {
                t.lemma_shift_zero(start);
            },
        }
    }

    proof fn lemma_shift_compose(self, start: int, a: int, b: int) {
        match self {
            None => {},
            Some(t) => {
                t.lemma_shift_compose(start, a, b);
            },
        }
    }

    proof fn lemma_shift_skips_below(self, bound: int, start: int, amount: int) {
        match self {
            None => {},
            Some(t) => {
                t.lemma_shift_skips_below(bound, start, amount);
            },
        }
    }

    proof fn lemma_shift_get_var(self, start: int, amount: int) {
        match self {
            None => {},
            Some(t) => {
                t.lemma_shift_get_var(start, amount);
            },
        }
    }
}

} // verus!
