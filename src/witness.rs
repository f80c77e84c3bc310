use core::marker::PhantomData;
use vstd::prelude::*;

use crate::named::{descends, lemma_siblings_disjoint, HasType, Ident, Name, Named, Seed};

verus! {

/// The identities named by a list of tokens, in order.
pub open spec fn idents<N: Name>(ids: Seq<Ident<N>>) -> Seq<Seq<nat>> {
    ids.map_values(|id: Ident<N>| id.path())
}

/// A zero-size certificate that the predicate `P` holds of the values behind
/// its subject identities, in order.
///
/// A witness is built only by whoever can present a value of `P`. A
/// predicate's marker type keeps its fields private, so that its module
/// alone can build witnesses: through a verifier that checked the values,
/// through an inference rule that consumed other witnesses, or through an
/// unchecked constructor that documents why the fact holds anyway.
pub struct Witness<P, N: Name> {
    subjects: Ghost<Seq<Seq<nat>>>,
    brand: PhantomData<(P, N)>,
}

impl<P, N: Name> Witness<P, N> {
    /// The identities this witness speaks of, in order.
    pub closed spec fn subjects(&self) -> Seq<Seq<nat>> {
        self.subjects@
    }

    /// Certifies `P` of the identities named by `subjects`.
    pub fn new(_key: &P, subjects: &Vec<Ident<N>>) -> (r: Witness<P, N>)
        ensures
            r.subjects() == idents(subjects@),
    {
        Witness { subjects: Ghost(idents(subjects@)), brand: PhantomData }
    }

    /// Certifies `P` of identities given in ghost code, as an inference
    /// rule does when it rearranges the subjects of the witnesses it took.
    pub fn from_subjects(_key: &P, subjects: Ghost<Seq<Seq<nat>>>) -> (r: Witness<P, N>)
        ensures
            r.subjects() == subjects@,
    {
        Witness { subjects, brand: PhantomData }
    }
}

/// A freshly named value together with a witness whose first subject is
/// that value's own identity: "there is a value, named so, such that `P`
/// holds of it and of the other subjects".
pub struct Exists<N: HasType<Value>, Value, P> {
    entity: Named<N, Value>,
    witness: Witness<P, N>,
}

impl<N: HasType<Value>, Value, P> View for Exists<N, Value, P> {
    type V = (Named<N, Value>, Witness<P, N>);

    closed spec fn view(&self) -> (Named<N, Value>, Witness<P, N>) {
        (self.entity, self.witness)
    }
}

/// Whether `w` is bound to the identity of `e`: its first subject is that
/// identity.
pub open spec fn bound_to<N: HasType<Value>, Value, P>(e: Named<N, Value>, w: Witness<P, N>) -> bool {
    w.subjects().len() >= 1 && w.subjects()[0] == e.name()
}

impl<N: HasType<Value>, Value, P> Exists<N, Value, P> {
    #[verifier::type_invariant]
    spec fn inv(&self) -> bool {
        bound_to(self.entity, self.witness)
    }

    /// Names `value` with the identity of `seed` and certifies `P` of that
    /// identity followed by the identities of `others`.
    pub fn new_exists(seed: Seed<N>, value: Value, _key: &P, others: &Vec<Ident<N>>) -> (r: Exists<
        N,
        Value,
        P,
    >)
        ensures
            r@.0.name() == seed.path(),
            r@.0@ == value,
            r@.1.subjects() == seq![seed.path()] + idents(others@),
            bound_to(r@.0, r@.1),
    {
        let ghost fresh = seed.path();
        let entity = seed.new_named(value);
        let ghost subjects = seq![fresh] + idents(others@);
        let witness = Witness::from_subjects(_key, Ghost(subjects));
        Exists { entity, witness }
    }

    /// Borrows the named value.
    pub fn entity(&self) -> (r: &Named<N, Value>)
        ensures
            *r == self@.0,
            bound_to(*r, self@.1),
    {
        proof {
            use_type_invariant(self);
        }
        &self.entity
    }

    /// Borrows the witness.
    pub fn witness(&self) -> (r: &Witness<P, N>)
        ensures
            *r == self@.1,
            bound_to(self@.0, *r),
    {
        proof {
            use_type_invariant(self);
        }
        &self.witness
    }

    /// Takes the pair apart; the witness stays bound to the value's identity.
    pub fn into_parts(self) -> (r: (Named<N, Value>, Witness<P, N>))
        ensures
            r == self@,
            bound_to(r.0, r.1),
    {
        proof {
            use_type_invariant(&self);
        }
        (self.entity, self.witness)
    }
}

/// Identities keep witnesses apart: when the `k`-th subject of `w` was
/// minted below child `i` of a split and `x` was named below child `j != i`,
/// that subject is not `x`'s identity, so `w` cannot stand where a witness
/// about `x` is required.
pub proof fn lemma_sibling_witness_rejected<P, N: HasType<Value>, Value>(
    parent: Seq<nat>,
    i: nat,
    j: nat,
    w: Witness<P, N>,
    k: int,
    x: Named<N, Value>,
)
    requires
        i != j,
        0 <= k < w.subjects().len(),
        descends(w.subjects()[k], parent.push(i)),
        descends(x.name(), parent.push(j)),
    ensures
        w.subjects()[k] != x.name(),
{
    lemma_siblings_disjoint(parent, i, j, w.subjects()[k], x.name());
}

} // verus!
