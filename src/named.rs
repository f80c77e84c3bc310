use core::marker::PhantomData;
use vstd::prelude::*;

verus! {

/// Supertrait of [`Name`], implemented by the brand types of this crate.
pub trait Sealed {
}

/// A brand type under which identities are minted.
pub trait Name: Send + Sync + Sealed {
}

/// A brand whose named values hold a `T`.
pub trait HasType<T>: Name {
}

/// The brand of one call of [`with_seed`]: the lifetime is fresh for each
/// call and invariant, so no two roots share it.
pub struct Life<'name> {
    brand: PhantomData<&'name mut &'name ()>,
}

impl<'name> Sealed for Life<'name> {
}

impl<'name> Name for Life<'name> {
}

impl<'name, T> HasType<T> for Life<'name> {
}

/// A single-use capability to mint one identity or to split into children.
pub struct Seed<N: Name> {
    path: Ghost<Seq<nat>>,
    brand: PhantomData<N>,
}

/// A zero-size token that names one identity under the brand `N`.
pub struct Ident<N: Name> {
    path: Ghost<Seq<nat>>,
    brand: PhantomData<N>,
}

/// A value together with the identity it was given when it was minted.
pub struct Named<N: HasType<Value>, Value> {
    value: Value,
    name: Ghost<Seq<nat>>,
    brand: PhantomData<N>,
}

impl<N: Name> Seed<N> {
    /// Position of this seed in the tree of splits below its root.
    pub closed spec fn path(&self) -> Seq<nat> {
        self.path@
    }

    fn at(path: Ghost<Seq<nat>>) -> (r: Seed<N>)
        ensures
            r.path() == path@,
    {
        Seed { path, brand: PhantomData }
    }

    /// Mints the identity of this seed and binds `value` to it.
    pub fn new_named<Value>(self, value: Value) -> (r: Named<N, Value>) where N: HasType<Value>
        ensures
            r.name() == self.path(),
            r@ == value,
    {
        Named { value, name: self.path, brand: PhantomData }
    }

    /// Splits this seed into two children.
    pub fn replicate(self) -> (r: (Seed<N>, Seed<N>))
        ensures
            r.0.path() == self.path().push(0),
            r.1.path() == self.path().push(1),
    {
        (Seed::at(Ghost(self.path@.push(0))), Seed::at(Ghost(self.path@.push(1))))
    }

    /// Splits this seed into three children.
    pub fn replicate_3(self) -> (r: (Seed<N>, Seed<N>, Seed<N>))
        ensures
            r.0.path() == self.path().push(0),
            r.1.path() == self.path().push(1),
            r.2.path() == self.path().push(2),
    {
        (
            Seed::at(Ghost(self.path@.push(0))),
            Seed::at(Ghost(self.path@.push(1))),
            Seed::at(Ghost(self.path@.push(2))),
        )
    }

    /// Splits this seed into four children.
    pub fn replicate_4(self) -> (r: (Seed<N>, Seed<N>, Seed<N>, Seed<N>))
        ensures
            r.0.path() == self.path().push(0),
            r.1.path() == self.path().push(1),
            r.2.path() == self.path().push(2),
            r.3.path() == self.path().push(3),
    {
        (
            Seed::at(Ghost(self.path@.push(0))),
            Seed::at(Ghost(self.path@.push(1))),
            Seed::at(Ghost(self.path@.push(2))),
            Seed::at(Ghost(self.path@.push(3))),
        )
    }

    /// Splits this seed into five children.
    pub fn replicate_5(self) -> (r: (Seed<N>, Seed<N>, Seed<N>, Seed<N>, Seed<N>))
        ensures
            r.0.path() == self.path().push(0),
            r.1.path() == self.path().push(1),
            r.2.path() == self.path().push(2),
            r.3.path() == self.path().push(3),
            r.4.path() == self.path().push(4),
    {
        (
            Seed::at(Ghost(self.path@.push(0))),
            Seed::at(Ghost(self.path@.push(1))),
            Seed::at(Ghost(self.path@.push(2))),
            Seed::at(Ghost(self.path@.push(3))),
            Seed::at(Ghost(self.path@.push(4))),
        )
    }

    /// Splits this seed into six children.
    pub fn replicate_6(self) -> (r: (Seed<N>, Seed<N>, Seed<N>, Seed<N>, Seed<N>, Seed<N>))
        ensures
            r.0.path() == self.path().push(0),
            r.1.path() == self.path().push(1),
            r.2.path() == self.path().push(2),
            r.3.path() == self.path().push(3),
            r.4.path() == self.path().push(4),
            r.5.path() == self.path().push(5),
    {
        (
            Seed::at(Ghost(self.path@.push(0))),
            Seed::at(Ghost(self.path@.push(1))),
            Seed::at(Ghost(self.path@.push(2))),
            Seed::at(Ghost(self.path@.push(3))),
            Seed::at(Ghost(self.path@.push(4))),
            Seed::at(Ghost(self.path@.push(5))),
        )
    }

    /// Splits this seed into seven children.
    pub fn replicate_7(self) -> (r: (Seed<N>, Seed<N>, Seed<N>, Seed<N>, Seed<N>, Seed<N>, Seed<N>))
        ensures
            r.0.path() == self.path().push(0),
            r.1.path() == self.path().push(1),
            r.2.path() == self.path().push(2),
            r.3.path() == self.path().push(3),
            r.4.path() == self.path().push(4),
            r.5.path() == self.path().push(5),
            r.6.path() == self.path().push(6),
    {
        (
            Seed::at(Ghost(self.path@.push(0))),
            Seed::at(Ghost(self.path@.push(1))),
            Seed::at(Ghost(self.path@.push(2))),
            Seed::at(Ghost(self.path@.push(3))),
            Seed::at(Ghost(self.path@.push(4))),
            Seed::at(Ghost(self.path@.push(5))),
            Seed::at(Ghost(self.path@.push(6))),
        )
    }

    /// Splits this seed into eight children.
    pub fn replicate_8(self) -> (r: (Seed<N>, Seed<N>, Seed<N>, Seed<N>, Seed<N>, Seed<N>, Seed<N>, Seed<N>))
        ensures
            r.0.path() == self.path().push(0),
            r.1.path() == self.path().push(1),
            r.2.path() == self.path().push(2),
            r.3.path() == self.path().push(3),
            r.4.path() == self.path().push(4),
            r.5.path() == self.path().push(5),
            r.6.path() == self.path().push(6),
            r.7.path() == self.path().push(7),
    {
        (
            Seed::at(Ghost(self.path@.push(0))),
            Seed::at(Ghost(self.path@.push(1))),
            Seed::at(Ghost(self.path@.push(2))),
            Seed::at(Ghost(self.path@.push(3))),
            Seed::at(Ghost(self.path@.push(4))),
            Seed::at(Ghost(self.path@.push(5))),
            Seed::at(Ghost(self.path@.push(6))),
            Seed::at(Ghost(self.path@.push(7))),
        )
    }

    /// Splits this seed into `n` children, the `i`-th at `self.path().push(i)`.
    pub fn replicate_n(self, n: usize) -> (r: Vec<Seed<N>>)
        ensures
            r.len() == n,
            forall|i: int| 0 <= i < n ==> #[trigger] r[i].path() == self.path().push(i as nat),
            forall|i: int, j: int|
                0 <= i < n && 0 <= j < n && i != j ==> #[trigger] r[i].path() != #[trigger] r[j].path(),
    {
        let mut children: Vec<Seed<N>> = Vec::new();
        let mut i: usize = 0;
        while i < n
            invariant
                i <= n,
                children.len() == i,
                forall|j: int| 0 <= j < i ==> #[trigger] children[j].path() == self.path().push(
                    j as nat,
                ),
            decreases n - i,
        {
            children.push(Seed::at(Ghost(self.path@.push(i as nat))));
            i = i + 1;
        }
        assert forall|a: int, b: int|
            0 <= a < n && 0 <= b < n && a != b implies #[trigger] children[a].path()
            != #[trigger] children[b].path() by {
            let len = self.path().len() as int;
            assert(children[a].path()[len] == a);
            assert(children[b].path()[len] == b);
        }
        children
    }

    /// Mints the identity of this seed, consuming it.
    pub fn new_name(self) -> (r: Ident<N>)
        ensures
            r.path() == self.path(),
    {
        Ident { path: self.path, brand: PhantomData }
    }
}

impl<N: Name> Ident<N> {
    /// The identity this token stands for.
    pub closed spec fn path(&self) -> Seq<nat> {
        self.path@
    }
}

impl<N: HasType<Value>, Value> Named<N, Value> {
    /// Names `value` with the identity of `seed`.
    pub fn new(seed: Seed<N>, value: Value) -> (r: Named<N, Value>)
        ensures
            r.name() == seed.path(),
            r@ == value,
    {
        seed.new_named(value)
    }

    /// The identity this value was given.
    pub closed spec fn name(&self) -> Seq<nat> {
        self.name@
    }

    /// Borrows the value.
    pub fn value(&self) -> (r: &Value)
        ensures
            *r == self@,
    {
        &self.value
    }

    /// Gives the value back, letting go of its identity.
    pub fn into_value(self) -> (r: Value)
        ensures
            r == self@,
    {
        self.value
    }

    /// A token for the identity of this value.
    pub fn ident(&self) -> (r: Ident<N>)
        ensures
            r.path() == self.name(),
    {
        Ident { path: self.name, brand: PhantomData }
    }
}

impl<N: HasType<Value>, Value> View for Named<N, Value> {
    type V = Value;

    closed spec fn view(&self) -> Value {
        self.value
    }
}

/// Runs `cont` with the root seed of a fresh tree of identities.
///
/// The root is branded with a lifetime that `cont` must accept whatever it
/// is, so neither the seed nor anything minted from it can leave `cont`.
pub fn with_seed<R, F>(cont: F) -> (r: R)
    where
        F: for<'name> FnOnce(Seed<Life<'name>>) -> R,
    requires
        forall|s: Seed<Life>| s.path() == Seq::<nat>::empty() ==> cont.requires((s,)),
    ensures
        exists|s: Seed<Life>| s.path() == Seq::<nat>::empty() && cont.ensures((s,), r),
{
    let root = Seed::at(Ghost(Seq::empty()));
    cont(root)
}

/// Whether `path` lies in the subtree of the seed at `root`, the seed itself
/// included: every identity minted from that seed or its descendants does.
pub open spec fn descends(path: Seq<nat>, root: Seq<nat>) -> bool {
    root.is_prefix_of(path)
}

/// Children `i` and `j != i` of one split own disjoint subtrees: an identity
/// minted below one of them is never an identity minted below the other.
pub proof fn lemma_siblings_disjoint(parent: Seq<nat>, i: nat, j: nat, a: Seq<nat>, b: Seq<nat>)
    requires
        i != j,
        descends(a, parent.push(i)),
        descends(b, parent.push(j)),
    ensures
        a != b,
{
    assert(a[parent.len() as int] == parent.push(i)[parent.len() as int]);
    assert(b[parent.len() as int] == parent.push(j)[parent.len() as int]);
}

/// A seed's own identity lies outside the subtree of each of its children,
/// so minting and splitting never hand out the same identity.
pub proof fn lemma_parent_outside_child(parent: Seq<nat>, i: nat, a: Seq<nat>)
    requires
        descends(a, parent.push(i)),
    ensures
        a != parent,
{
}

/// Descent is transitive: whatever is minted below a child is minted below
/// the parent as well.
pub proof fn lemma_descends_trans(a: Seq<nat>, b: Seq<nat>, c: Seq<nat>)
    requires
        descends(a, b),
        descends(b, c),
    ensures
        descends(a, c),
{
    assert forall|k: int| 0 <= k < c.len() implies a[k] == c[k] by {
        assert(a[k] == b[k]);
    }
}

/// Unwrapping a freshly named value gives back the value it was named
/// with: `n` is what naming `v` gives, `out` what unwrapping `n` gives.
pub proof fn lemma_round_trip<N: HasType<Value>, Value>(v: Value, n: Named<N, Value>, out: Value)
    requires
        n@ == v,
        out == n@,
    ensures
        out == v,
{
}

} // verus!
