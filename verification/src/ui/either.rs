//! Stack-allocated branching between two alternatives, [`Either`], with the [`either`]
//! combinator and the [`ViewEitherExt`] constructors.
use vstd::prelude::*;

verus! {

/// A value that is either of type `A` (`Left`) or of type `B` (`Right`).
#[derive(Clone, Copy, Debug, PartialEq, Eq, PartialOrd, Ord, Hash)]
pub enum Either<A, B> {
    /// Left variant containing a value of type `A`.
    Left(A),
    /// Right variant containing a value of type `B`.
    Right(B),
}

impl<A, B> Either<A, B> {
    /// Returns `true` if this is [`Either::Left`].
    #[inline]
    pub fn is_left(&self) -> (r: bool)
        ensures
            r == (*self is Left),
    {
        matches!(self, Either::Left(_))
    }

    /// Returns `true` if this is [`Either::Right`].
    #[inline]
    pub fn is_right(&self) -> (r: bool)
        ensures
            r == (*self is Right),
    {
        matches!(self, Either::Right(_))
    }

    /// Returns a reference to the left value, if present.
    #[inline]
    pub fn left(&self) -> (r: Option<&A>)
        ensures
            match *self {
                Either::Left(a) => r == Some(&a),
                Either::Right(_) => r is None,
            },
    {
        match self {
            Either::Left(a) => Some(a),
            Either::Right(_) => None,
        }
    }

    /// Returns a reference to the right value, if present.
    #[inline]
    pub fn right(&self) -> (r: Option<&B>)
        ensures
            match *self {
                Either::Left(_) => r is None,
                Either::Right(b) => r == Some(&b),
            },
    {
        match self {
            Either::Left(_) => None,
            Either::Right(b) => Some(b),
        }
    }

    /// Returns a mutable reference to the left value, if present.
    #[inline]
    pub fn left_mut(&mut self) -> (r: Option<&mut A>)
        ensures
            match *old(self) {
                Either::Left(a) => r matches Some(ra) && *ra == a && *final(self) == Either::<
                    A,
                    B,
                >::Left(*final(ra)),
                Either::Right(b) => r is None && *final(self) == Either::<A, B>::Right(b),
            },
    {
        match self {
            Either::Left(a) => Some(a),
            Either::Right(_) => None,
        }
    }

    /// Returns a mutable reference to the right value, if present.
    #[inline]
    pub fn right_mut(&mut self) -> (r: Option<&mut B>)
        ensures
            match *old(self) {
                Either::Left(a) => r is None && *final(self) == Either::<A, B>::Left(a),
                Either::Right(b) => r matches Some(rb) && *rb == b && *final(self) == Either::<
                    A,
                    B,
                >::Right(*final(rb)),
            },
    {
        match self {
            Either::Left(_) => None,
            Either::Right(b) => Some(b),
        }
    }

    /// Converts `&Either<A, B>` into `Either<&A, &B>`.
    #[inline]
    pub fn as_ref(&self) -> (r: Either<&A, &B>)
        ensures
            match *self {
                Either::Left(a) => r == Either::<&A, &B>::Left(&a),
                Either::Right(b) => r == Either::<&A, &B>::Right(&b),
            },
    {
        match self {
            Either::Left(a) => Either::Left(a),
            Either::Right(b) => Either::Right(b),
        }
    }

    /// Converts `&mut Either<A, B>` into `Either<&mut A, &mut B>`.
    #[inline]
    pub fn as_mut(&mut self) -> (r: Either<&mut A, &mut B>)
        ensures
            match *old(self) {
                Either::Left(a) => r matches Either::Left(ra) && *ra == a && *final(self)
                    == Either::<A, B>::Left(*final(ra)),
                Either::Right(b) => r matches Either::Right(rb) && *rb == b && *final(self)
                    == Either::<A, B>::Right(*final(rb)),
            },
    {
        match self {
            Either::Left(a) => Either::Left(a),
            Either::Right(b) => Either::Right(b),
        }
    }

    /// Maps the left variant with `f`; a right value is kept.
    #[inline]
    pub fn map_left<F, A2>(self, f: F) -> (r: Either<A2, B>) where F: FnOnce(A) -> A2
        requires
            self matches Either::Left(a) ==> f.requires((a,)),
        ensures
            match self {
                Either::Left(a) => r matches Either::Left(a2) && f.ensures((a,), a2),
                Either::Right(b) => r == Either::<A2, B>::Right(b),
            },
    {
        match self {
            Either::Left(a) => Either::Left(f(a)),
            Either::Right(b) => Either::Right(b),
        }
    }

    /// Maps the right variant with `f`; a left value is kept.
    #[inline]
    pub fn map_right<F, B2>(self, f: F) -> (r: Either<A, B2>) where F: FnOnce(B) -> B2
        requires
            self matches Either::Right(b) ==> f.requires((b,)),
        ensures
            match self {
                Either::Left(a) => r == Either::<A, B2>::Left(a),
                Either::Right(b) => r matches Either::Right(b2) && f.ensures((b,), b2),
            },
    {
        match self {
            Either::Left(a) => Either::Left(a),
            Either::Right(b) => Either::Right(f(b)),
        }
    }

    /// Returns the left value; calling it on a right value panics, which `requires` rules out.
    #[inline]
    pub fn unwrap_left(self) -> (r: A)
        requires
            self is Left,
        ensures
            self == Either::<A, B>::Left(r),
    {
        match self {
            Either::Left(a) => a,
            Either::Right(_) => vstd::pervasive::unreached(),
        }
    }

    /// Returns the right value; calling it on a left value panics, which `requires` rules out.
    #[inline]
    pub fn unwrap_right(self) -> (r: B)
        requires
            self is Right,
        ensures
            self == Either::<A, B>::Right(r),
    {
        match self {
            Either::Left(_) => vstd::pervasive::unreached(),
            Either::Right(b) => b,
        }
    }
}

impl<A: Default, B> Default for Either<A, B> {
    fn default() -> (r: Self)
        ensures
            r is Left,
    {
        Either::Left(A::default())
    }
}

/// Chooses between two alternatives: `Left(true_view)` when `condition` holds,
/// `Right(false_view)` otherwise.
#[inline]
pub fn either<A, B>(condition: bool, true_view: A, false_view: B) -> (r: Either<A, B>)
    ensures
        r == if condition {
            Either::<A, B>::Left(true_view)
        } else {
            Either::<A, B>::Right(false_view)
        },
{
    if condition {
        Either::Left(true_view)
    } else {
        Either::Right(false_view)
    }
}

/// Constructors `.either_left()` and `.either_right()` on any value.
pub trait ViewEitherExt: Sized {
    /// Wraps this value in [`Either::Left`].
    #[inline]
    fn either_left<B>(self) -> (r: Either<Self, B>)
        ensures
            r == Either::<Self, B>::Left(self),
    {
        Either::Left(self)
    }

    /// Wraps this value in [`Either::Right`].
    #[inline]
    fn either_right<A>(self) -> (r: Either<A, Self>)
        ensures
            r == Either::<A, Self>::Right(self),
    {
        Either::Right(self)
    }
}

impl<T> ViewEitherExt for T {

}

/// How a conditional view is rebuilt from the previous one.
#[derive(Clone, Copy, Debug, PartialEq, Eq, Structural)]
pub enum BranchRebuild {
    /// The same branch is shown: its view is rebuilt in place.
    InPlace,
    /// The other branch is shown: the new branch's view is built and takes the old one's
    /// place (also as the window's root, if the old one was), and the old one is removed
    /// and torn down.
    Replace,
}

impl<A, B> Either<A, B> {
    /// Plans how this view is rebuilt from the previous view `prev`: in place when both
    /// show the same branch, by replacement otherwise.
    pub fn rebuild_plan<C, D>(&self, prev: &Either<C, D>) -> (r: BranchRebuild)
        ensures
            r == if (*self is Left) == (*prev is Left) {
                BranchRebuild::InPlace
            } else {
                BranchRebuild::Replace
            },
    {
        match (self, prev) {
            (Either::Left(_), Either::Left(_)) | (Either::Right(_), Either::Right(_)) => BranchRebuild::InPlace,
            _ => BranchRebuild::Replace,
        }
    }
}

} // verus!
