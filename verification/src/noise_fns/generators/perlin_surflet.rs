//! The gradient-lattice generator that weights each corner with a radial
//! falloff instead of interpolating between corners.

use crate::noise_fns::seed_eq;
use crate::noise_fns::Seed;
use crate::noise_fns::Seedable;
use crate::noise_fns::DEFAULT_SEED;
use crate::permutationtable::table_of_seed;
use crate::permutationtable::PermutationTable;
use vstd::prelude::*;

verus! {

/// Noise function that outputs 2/3/4-dimensional Perlin noise.
///
/// This is a variant of classic Perlin noise, based on the principles of simplex noise to
/// calculate the values at a point using wavelets instead of interpolated gradients.
#[derive(Clone, Copy, Debug)]
pub struct PerlinSurflet {
    seed: Seed,
    perm_table: PermutationTable,
}

impl PerlinSurflet {
    /// The entries of the permutation table that the generator holds.
    pub closed spec fn table_view(&self) -> Seq<u8> {
        self.perm_table@
    }

    /// Every generator holds the table that belongs to its seed.
    #[verifier::type_invariant]
    pub closed spec fn wf(&self) -> bool {
        self.perm_table@ == table_of_seed(self.seed@)
    }

    /// A generator for `seed`, with the permutation table drawn from it.
    pub fn new(seed: Seed) -> (generator: Self)
        ensures
            generator.wf(),
            generator.seed_view() == seed@,
            generator.table_view() == table_of_seed(seed@),
    {
        Self { seed, perm_table: PermutationTable::new(seed) }
    }

    /// The permutation table, for hashing the lattice corners round a point.
    pub fn perm_table(&self) -> (table: &PermutationTable)
        ensures
            table@ == self.table_view(),
            table@ == table_of_seed(self.seed_view()),
    {
        proof {
            use_type_invariant(self);
        }
        &self.perm_table
    }

    /// Nothing but the seed decides what a generator is: two generators that
    /// hold the same seed are equal, however each was made.
    pub proof fn lemma_seed_determines_generator(a: Self, b: Self)
        requires
            a.wf(),
            b.wf(),
            a.seed_view() == b.seed_view(),
        ensures
            a == b,
    {
        assert(a.seed =~= b.seed);
        PermutationTable::lemma_view_injective(a.perm_table, b.perm_table);
    }
}

impl Default for PerlinSurflet {
    /// The generator for [`DEFAULT_SEED`].
    fn default() -> (generator: Self)
        ensures
            generator.wf(),
            generator.seed_view() == DEFAULT_SEED@,
            generator.table_view() == table_of_seed(DEFAULT_SEED@),
    {
        Self::new(DEFAULT_SEED)
    }
}

impl Seedable for PerlinSurflet {
    open spec fn obeys_seed_spec() -> bool {
        true
    }

    closed spec fn seed_view(&self) -> Seq<u8> {
        self.seed@
    }

    /// Sets the seed value for Perlin surflet noise.
    fn set_seed(self, seed: Seed) -> (updated: Self)
        ensures
            updated.wf(),
            updated.seed_view() == seed@,
            updated.table_view() == table_of_seed(seed@),
            self.seed_view() == seed@ ==> updated == self,
    {
        proof {
            use_type_invariant(&self);
        }
        // If the new seed is the same as the current seed, just return self.
        if seed_eq(&self.seed, &seed) {
            return self;
        }
        // Otherwise, regenerate the permutation table based on the new seed.
        Self::new(seed)
    }

    fn seed(&self) -> (seed: Seed)
        ensures
            seed@ == self.seed_view(),
    {
        self.seed
    }
}

} // verus!
