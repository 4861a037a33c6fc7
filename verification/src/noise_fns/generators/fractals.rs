//! Construction of the per-octave sources of a fractal.

use crate::noise_fns::seed_eq;
use crate::noise_fns::Seed;
use crate::noise_fns::Seedable;
use vstd::prelude::*;

verus! {

/// The seed of octave `octave`: the base seed with its first byte advanced
/// by the octave's number, wrapping at 256.
pub open spec fn octave_seed(seed: Seq<u8>, octave: int) -> Seq<u8> {
    seed.update(0, ((seed[0] as int + octave) % 256) as u8)
}

/// The first octave keeps the base seed.
pub proof fn lemma_first_octave_keeps_seed(seed: Seq<u8>)
    requires
        seed.len() > 0,
    ensures
        octave_seed(seed, 0) == seed,
{
}

/// Octaves whose numbers differ by less than 256 get different seeds.
pub proof fn lemma_octave_seeds_differ(seed: Seq<u8>, i: int, j: int)
    requires
        seed.len() > 0,
        0 <= i < j < i + 256,
    ensures
        octave_seed(seed, i) != octave_seed(seed, j),
{
    // The seeds differ in their first byte.
    assert(octave_seed(seed, i)[0] != octave_seed(seed, j)[0]);
}

/// Builds one source per octave, each a default source re-seeded with its
/// octave's seed.
pub fn build_sources<Source>(seed: Seed, octaves: usize) -> (sources: Vec<Source>) where
    Source: Default + Seedable,

    ensures
        sources@.len() == octaves,
        Source::obeys_seed_spec() ==> forall|x: int|
            0 <= x < octaves ==> (#[trigger] sources@[x]).seed_view() == octave_seed(seed@, x),
{
    let mut sources: Vec<Source> = Vec::new();
    let mut x: usize = 0;
    while x < octaves
        invariant
            x <= octaves,
            sources@.len() == x,
            Source::obeys_seed_spec() ==> forall|y: int|
                0 <= y < x ==> (#[trigger] sources@[y]).seed_view() == octave_seed(seed@, y),
        decreases octaves - x,
    {
        let source = Source::default();
        let mut seed = seed;
        let step: u8 = (x % 256) as u8;
        seed[0] = seed[0].wrapping_add(step);
        sources.push(source.set_seed(seed));
        x += 1;
    }
    sources
}

/// The octaves of a fractal: one source per octave, all seeded from one
/// base seed.
#[derive(Debug)]
pub struct Octaves<Source: Seedable> {
    seed: Seed,
    sources: Vec<Source>,
}

impl<Source: Seedable> Octaves<Source> {
    /// The sources, in the order of their octaves.
    pub closed spec fn sources_view(&self) -> Seq<Source> {
        self.sources@
    }

    /// Every source holds the seed of its octave.
    #[verifier::type_invariant]
    pub closed spec fn wf(&self) -> bool {
        Source::obeys_seed_spec() ==> forall|x: int|
            0 <= x < self.sources@.len() ==> (#[trigger] self.sources@[x]).seed_view()
                == octave_seed(self.seed@, x)
    }
}

impl<Source: Default + Seedable> Octaves<Source> {
    /// A fractal of one octave has one source, and it holds the base seed.
    pub proof fn lemma_single_octave(&self)
        requires
            self.wf(),
            Source::obeys_seed_spec(),
            self.sources_view().len() == 1,
        ensures
            self.sources_view()[0].seed_view() == self.seed_view(),
    {
        lemma_first_octave_keeps_seed(self.seed@);
    }

    /// `octaves` default sources, seeded from `seed`.
    pub fn new(seed: Seed, octaves: usize) -> (fresh: Self)
        ensures
            fresh.wf(),
            fresh.seed_view() == seed@,
            fresh.sources_view().len() == octaves,
    {
        Octaves { seed, sources: build_sources(seed, octaves) }
    }

    /// The number of octaves.
    pub fn octaves(&self) -> (count: usize)
        ensures
            count == self.sources_view().len(),
    {
        self.sources.len()
    }

    /// The sources, in the order of their octaves.
    pub fn sources(&self) -> (sources: &Vec<Source>)
        ensures
            sources@ == self.sources_view(),
            Source::obeys_seed_spec() ==> forall|x: int|
                0 <= x < sources@.len() ==> (#[trigger] sources@[x]).seed_view() == octave_seed(
                    self.seed_view(),
                    x,
                ),
    {
        proof {
            use_type_invariant(self);
        }
        &self.sources
    }

    /// Returns the value with `octaves` octaves. A value that already has
    /// that many comes back unchanged; otherwise every source is built anew
    /// from the seed.
    pub fn set_octaves(self, octaves: usize) -> (updated: Self)
        ensures
            updated.wf(),
            updated.seed_view() == self.seed_view(),
            updated.sources_view().len() == octaves,
            self.sources_view().len() == octaves ==> updated == self,
    {
        proof {
            use_type_invariant(&self);
        }
        if self.sources.len() == octaves {
            return self;
        }
        Octaves { seed: self.seed, sources: build_sources(self.seed, octaves) }
    }
}

impl<Source: Default + Seedable> Clone for Octaves<Source> {
    /// A value of its own with the same seed and as many octaves, its
    /// sources built from the seed.
    fn clone(&self) -> (copy: Self)
        ensures
            copy.wf(),
            copy.seed_view() == self.seed_view(),
            copy.sources_view().len() == self.sources_view().len(),
    {
        Octaves { seed: self.seed, sources: build_sources(self.seed, self.sources.len()) }
    }
}

impl<Source: Default + Seedable> Seedable for Octaves<Source> {
    open spec fn obeys_seed_spec() -> bool {
        true
    }

    closed spec fn seed_view(&self) -> Seq<u8> {
        self.seed@
    }

    /// Returns the value with as many octaves, seeded from `seed`. A value
    /// that already holds `seed` comes back unchanged; otherwise every source
    /// is built anew.
    fn set_seed(self, seed: Seed) -> (updated: Self)
        ensures
            updated.wf(),
            updated.seed_view() == seed@,
            updated.sources_view().len() == self.sources_view().len(),
            self.seed_view() == seed@ ==> updated == self,
    {
        proof {
            use_type_invariant(&self);
        }
        if seed_eq(&self.seed, &seed) {
            return self;
        }
        let octaves = self.sources.len();
        Octaves { seed, sources: build_sources(seed, octaves) }
    }

    fn seed(&self) -> (seed: Seed)
        ensures
            seed@ == self.seed_view(),
    {
        self.seed
    }
}

} // verus!
