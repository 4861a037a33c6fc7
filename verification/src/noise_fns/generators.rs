//! Primitive generators, each owning a seed and the permutation table drawn
//! from it, and the construction of per-octave sources for fractals.

pub mod fractals;
pub mod open_simplex;
pub mod perlin;
pub mod perlin_surflet;
pub mod super_simplex;
pub mod value;

pub use self::fractals::build_sources;
pub use self::fractals::Octaves;
pub use self::open_simplex::OpenSimplex;
pub use self::perlin::Perlin;
pub use self::perlin_surflet::PerlinSurflet;
pub use self::super_simplex::SuperSimplex;
pub use self::value::Value;
