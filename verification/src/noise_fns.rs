//! Seeds, the `Seedable` capability and the nodes that carry them.

use vstd::prelude::*;

pub mod cache;
pub mod generators;

pub use self::cache::Cache;
pub use self::generators::build_sources;
pub use self::generators::Octaves;
pub use self::generators::OpenSimplex;
pub use self::generators::Perlin;
pub use self::generators::PerlinSurflet;
pub use self::generators::SuperSimplex;
pub use self::generators::Value;

verus! {

/// A 128-bit seed.
pub type Seed = [u8; 16];

/// The seed that `default()` constructors use.
pub const DEFAULT_SEED: Seed = [
    0x4f, 0x09, 0xd6, 0x9f, 0x62, 0x9b, 0x09, 0x0c, 0x0c, 0x49, 0x09, 0xfe, 0x6f, 0x1d, 0x4a, 0x38,
];

/// Trait for functions that require a seed before generating their values.
pub trait Seedable: Sized {
    /// Whether the type states, through [`Seedable::seed_view`], which seed
    /// each of its values holds. The contracts of `set_seed` and `seed` bind
    /// only such a type; one that leaves this `false` promises nothing.
    open spec fn obeys_seed_spec() -> bool {
        false
    }

    /// The bytes of the seed that the value holds.
    open spec fn seed_view(&self) -> Seq<u8> {
        Seq::empty()
    }

    /// Returns the value re-seeded with `seed`. A value that already holds
    /// `seed` comes back unchanged.
    fn set_seed(self, seed: Seed) -> (updated: Self)
        ensures
            Self::obeys_seed_spec() ==> updated.seed_view() == seed@,
            Self::obeys_seed_spec() && self.seed_view() == seed@ ==> updated == self,
    ;

    /// The seed that the value holds.
    fn seed(&self) -> (seed: Seed)
        ensures
            Self::obeys_seed_spec() ==> seed@ == self.seed_view(),
    ;
}

/// Whether two seeds hold the same sixteen bytes.
pub fn seed_eq(a: &Seed, b: &Seed) -> (same: bool)
    ensures
        same == (a@ == b@),
{
    let mut i: usize = 0;
    while i < 16
        invariant
            i <= 16,
            forall|j: int| 0 <= j < i ==> a@[j] == b@[j],
        decreases 16 - i,
    {
        if a[i] != b[i] {
            return false;
        }
        i += 1;
    }
    assert(a@ =~= b@);
    true
}

} // verus!
