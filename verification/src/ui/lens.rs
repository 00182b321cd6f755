//! Lenses: focusing on a part `Inner` of a larger state `Outer`.
use vstd::prelude::*;

verus! {

/// A Lens focuses on a specific part `Inner` of a larger state `Outer`.
pub trait Lens<Outer: ?Sized, Inner: ?Sized> {
    /// Whether the lens can be applied to `outer`.
    spec fn applies_to(&self, outer: &Outer) -> bool;

    /// What the lens yields on `outer`.
    spec fn focus(&self, outer: &Outer, inner: &Inner) -> bool;

    /// Returns the part of `outer` that the lens focuses on.
    fn get<'a>(&self, outer: &'a Outer) -> (r: &'a Inner)
        requires
            self.applies_to(outer),
        ensures
            self.focus(outer, r),
    ;
}

impl<Outer: ?Sized, Inner: ?Sized, F> Lens<Outer, Inner> for F where F: Fn(&Outer) -> &Inner {
    open spec fn applies_to(&self, outer: &Outer) -> bool {
        self.requires((outer,))
    }

    open spec fn focus(&self, outer: &Outer, inner: &Inner) -> bool {
        self.ensures((outer,), inner)
    }

    fn get<'a>(&self, outer: &'a Outer) -> (r: &'a Inner) {
        (self)(outer)
    }
}

} // verus!
