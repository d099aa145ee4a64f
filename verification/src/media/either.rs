//! Provides [Either] **media-type**.

use super::{accepts_own_supported, texts_of, FromType, Rejection, Supported, Type};
use vstd::prelude::*;

verus! {

/// One of two media (or of two values): the first is tried first.
#[derive(Debug, Copy, PartialEq, Eq)]
pub enum Either<M, N> {
    First(M),
    Second(N),
}

impl<M: Clone, N: Clone> Clone for Either<M, N> {
    fn clone(&self) -> (r: Self)
        ensures
            *self matches Either::First(m) ==> r matches Either::First(c) && cloned(m, c),
            *self matches Either::Second(n) ==> r matches Either::Second(c) && cloned(n, c),
    {
        match self {
            Either::First(m) => Either::First(m.clone()),
            Either::Second(n) => Either::Second(n.clone()),
        }
    }
}

impl<M: Default, N> Default for Either<M, N> {
    fn default() -> (r: Self)
        ensures
            r matches Either::First(m) && call_ensures(M::default, (), m),
    {
        Either::First(M::default())
    }
}

impl<M: Supported, N: Supported> Supported for Either<M, N> {
    /// The media types of `M`, then those of `N`.
    open spec fn spec_supported() -> Seq<Seq<char>> {
        M::spec_supported() + N::spec_supported()
    }

    fn supported() -> (r: Vec<Type>) {
        let mut supported = M::supported();
        let mut other = N::supported();
        let ghost first = supported@;
        let ghost second = other@;
        supported.append(&mut other);
        assert(texts_of(supported@) =~= texts_of(first) + texts_of(second));
        supported
    }
}

impl<M: FromType, N: FromType> FromType for Either<M, N> {
    /// `M` is tried first, `N` only where `M` rejects.
    open spec fn spec_try_from(media: Seq<char>) -> Option<Self> {
        match M::spec_try_from(media) {
            Some(m) => Some(Either::First(m)),
            None => match N::spec_try_from(media) {
                Some(n) => Some(Either::Second(n)),
                None => None,
            },
        }
    }

    fn try_from_type(value: &Type) -> (r: Result<Self, Rejection<Self>>) {
        match M::try_from_type(value) {
            Ok(m) => Ok(Either::First(m)),
            Err(_) => match N::try_from_type(value) {
                Ok(n) => Ok(Either::Second(n)),
                Err(_) => Err(Rejection::new(value)),
            },
        }
    }
}

/// A media type converts into `Either<M, N>` exactly where it converts into
/// `M` or into `N`, and into the first of them where it converts into both.
pub proof fn lemma_either_accepts<M: FromType, N: FromType>(media: Seq<char>)
    ensures
        Either::<M, N>::spec_try_from(media) is Some <==> (M::spec_try_from(media) is Some
            || N::spec_try_from(media) is Some),
        M::spec_try_from(media) is Some ==> Either::<M, N>::spec_try_from(media) is Some
            && Either::<M, N>::spec_try_from(media)->0 is First,
        M::spec_try_from(media) is None && N::spec_try_from(media) is Some
            ==> Either::<M, N>::spec_try_from(media) is Some
            && Either::<M, N>::spec_try_from(media)->0 is Second,
{
}

/// Where `M` and `N` each accept every media type they list, so does
/// `Either<M, N>`.
pub proof fn lemma_either_accepts_own_supported<M: FromType, N: FromType>()
    requires
        accepts_own_supported::<M>(),
        accepts_own_supported::<N>(),
    ensures
        accepts_own_supported::<Either<M, N>>(),
{
    let all = Either::<M, N>::spec_supported();
    let first = M::spec_supported();
    let second = N::spec_supported();
    assert forall|i: int| 0 <= i < all.len() implies (#[trigger] Either::<M, N>::spec_try_from(
        all[i],
    )) is Some by {
        if i < first.len() {
            assert(all[i] == first[i]);
            assert(M::spec_try_from(first[i]) is Some);
        } else {
            assert(all[i] == second[i - first.len()]);
            assert(N::spec_try_from(second[i - first.len()]) is Some);
        }
    }
}

} // verus!
