//! The exact half of a coherent-noise library: everything about lattice
//! noise that is decided in whole numbers.
//!
//! * [`permutationtable`]: the table of 256 bytes drawn from a seed, and the
//!   hash of a lattice corner through it;
//! * [`noise_fns`]: seeds and the [`Seedable`] capability, the five primitive
//!   generators that own a seed and its table, the octaves of a fractal, and
//!   the record behind a cache node;
//! * [`lattice`]: which lattice points surround a point, per family;
//! * [`gradient`]: the gradient sets, as directions with whole components;
//! * [`xorshift`]: the pseudo-random source, an outside crate of which only
//!   its being a state machine is assumed.
//!
//! Evaluating noise at a point is arithmetic on real numbers and is not done
//! here. Where this library has to hold a real number, it holds its 64-bit
//! pattern.

pub mod gradient;
pub mod lattice;
pub mod noise_fns;
pub mod permutationtable;
pub mod xorshift;

pub use crate::noise_fns::build_sources;
pub use crate::noise_fns::seed_eq;
pub use crate::noise_fns::Cache;
pub use crate::noise_fns::Octaves;
pub use crate::noise_fns::OpenSimplex;
pub use crate::noise_fns::Perlin;
pub use crate::noise_fns::PerlinSurflet;
pub use crate::noise_fns::Seed;
pub use crate::noise_fns::Seedable;
pub use crate::noise_fns::SuperSimplex;
pub use crate::noise_fns::Value;
pub use crate::noise_fns::DEFAULT_SEED;
pub use crate::permutationtable::PermutationTable;
