use core::marker::PhantomData;
use vstd::prelude::*;
use vstd::std_specs::cmp::PartialEqSpec;

use crate::named::{HasType, Named};
use crate::witness::Witness;

verus! {

/// The predicate that the values behind two identities are equal.
pub struct IsEqual<T> {
    brand: PhantomData<T>,
}

/// Whether [`check_equal`] certifies two values: exactly when they are equal
/// under `T`'s `==`.
pub open spec fn certifies_equal<T: PartialEq>(first: T, second: T) -> bool {
    first.eq_spec(&second)
}

/// Checks that `first` and `second` hold equal values, and certifies it.
pub fn check_equal<N: HasType<T>, T: Eq>(first: &Named<N, T>, second: &Named<N, T>) -> (r: Option<
    Witness<IsEqual<T>, N>,
>)
    ensures
        T::obeys_eq_spec() ==> (r is Some <==> certifies_equal(first@, second@)),
        r matches Some(w) ==> w.subjects() == seq![first.name(), second.name()],
{
    if first.value() == second.value() {
        let key = IsEqual { brand: PhantomData };
        let ghost subjects = seq![first.name(), second.name()];
        Some(Witness::from_subjects(&key, Ghost(subjects)))
    } else {
        None
    }
}

/// Equality is symmetric: a witness that the first equals the second gives
/// one that the second equals the first.
pub fn equal_commutative<N: HasType<T>, T: Eq>(is_equal: Witness<IsEqual<T>, N>) -> (r: Witness<
    IsEqual<T>,
    N,
>)
    requires
        is_equal.subjects().len() == 2,
    ensures
        r.subjects() == seq![is_equal.subjects()[1], is_equal.subjects()[0]],
{
    let key = IsEqual { brand: PhantomData };
    let ghost swapped = seq![is_equal.subjects()[1], is_equal.subjects()[0]];
    Witness::from_subjects(&key, Ghost(swapped))
}

/// The outcome of [`check_equal`] depends on the two values alone: checks of
/// equal pairs of values, whatever their identities, both certify or both
/// refuse, and a certificate speaks of the identities that were checked.
pub proof fn lemma_check_equal_deterministic<N: HasType<T>, T: Eq>(
    first: Named<N, T>,
    second: Named<N, T>,
    r: Option<Witness<IsEqual<T>, N>>,
    again_first: Named<N, T>,
    again_second: Named<N, T>,
    again: Option<Witness<IsEqual<T>, N>>,
)
    requires
        T::obeys_eq_spec(),
        first@ == again_first@,
        second@ == again_second@,
        r is Some <==> certifies_equal(first@, second@),
        again is Some <==> certifies_equal(again_first@, again_second@),
        r matches Some(w) ==> w.subjects() == seq![first.name(), second.name()],
        again matches Some(w) ==> w.subjects() == seq![again_first.name(), again_second.name()],
    ensures
        r is Some <==> again is Some,
        (r is Some && again is Some && first.name() == again_first.name() && second.name()
            == again_second.name()) ==> r->Some_0.subjects() == again->Some_0.subjects(),
{
}

} // verus!
