//! View memoization: a subtree is rebuilt only when its input `data` changes.
use vstd::prelude::*;

verus! {

/// A memoized view wrapper that caches a sub-view based on equality of its input.
pub struct Memoize<T, F> {
    pub(crate) data: T,
    pub(crate) builder: F,
}

impl<T, F> Memoize<T, F> {
    /// The input that the cached view was built from.
    pub closed spec fn input(&self) -> T {
        self.data
    }

    /// The function that builds the view from the input.
    pub closed spec fn view_builder(&self) -> F {
        self.builder
    }
}

/// Memoizes a view construction function: the returned [`Memoize`] rebuilds its inner
/// view only when `data` compares unequal to the input of the previous frame.
pub fn memoize_view<T, V, F>(data: T, builder: F) -> (r: Memoize<T, F>) where
    T: PartialEq + Clone,
    F: Fn(&T) -> V,

    ensures
        r.input() == data,
        r.view_builder() == builder,
{
    Memoize { data, builder }
}

impl<T: PartialEq, F> Memoize<T, F> {
    /// Whether a rebuild rebuilds the inner view, given the input `cached` that the
    /// current view was built from: only when the new input differs from it. The new
    /// view is then built from the new input, which is cached in turn.
    /// The comparison is the input type's `==`; where that `==` is equality, the answer
    /// is exactly whether the inputs differ.
    pub fn needs_rebuild(&self, cached: &T) -> (r: bool)
        ensures
            vstd::laws_eq::obeys_concrete_eq::<T>() ==> r == (self.input() != *cached),
    {
        proof {
            reveal(vstd::laws_eq::obeys_concrete_eq);
        }
        !(self.data == *cached)
    }
}

impl<T: PartialEq + Clone, F> Memoize<T, F> {
    /// Brings `cache`, the input and the view built from it, up to this memoized view, as
    /// a rebuild does. When the input equals the cached one nothing changes, the builder is
    /// not called, and `None` is returned. Otherwise the builder is called once on the
    /// input, the cache then holds a clone of the input and the new view, and the previous
    /// view is returned: the new view's element is rebuilt against it.
    /// The inputs are compared with the input type's `==`; where that `==` is equality,
    /// the cache is rebuilt exactly when the inputs differ.
    pub fn update_cache<V>(&self, cache: &mut (T, V)) -> (r: Option<V>) where F: Fn(&T) -> V
        requires
            call_requires(self.view_builder(), (&self.input(),)),
        ensures
            r is None ==> *final(cache) == *old(cache),
            r is Some ==> {
                &&& r == Some(old(cache).1)
                &&& cloned(self.input(), final(cache).0)
                &&& call_ensures(self.view_builder(), (&self.input(),), final(cache).1)
            },
            vstd::laws_eq::obeys_concrete_eq::<T>() ==> (r is None <==> self.input() == old(cache).0),
    {
        if self.needs_rebuild(&cache.0) {
            let mut previous = (self.builder)(&self.data);
            std::mem::swap(&mut cache.1, &mut previous);
            cache.0 = self.data.clone();
            Some(previous)
        } else {
            None
        }
    }
}

} // verus!
