//! Unique names for values, and witnesses that carry facts about named
//! values from the code that checked them to the code that relies on them.
//!
//! A [`Seed`] mints one identity, or splits into children that mint
//! pairwise distinct identities. An identity is modelled as the path of the
//! seed that minted it in the tree of splits below the root handed out by
//! [`with_seed`]; the root itself is branded by a fresh lifetime, so values
//! from two different roots never share a type.
//!
//! A [`Witness`] records, at no runtime cost, that a predicate holds of the
//! values behind some identities; an [`Exists`] pairs a freshly named value
//! with a witness about its own identity.
mod equal;
mod named;
mod witness;

pub use equal::{check_equal, equal_commutative, IsEqual};
pub use named::{with_seed, HasType, Ident, Life, Name, Named, Sealed, Seed};
pub use witness::{Exists, Witness};
