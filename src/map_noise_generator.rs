use vstd::prelude::*;
use noise::permutationtable::PermutationTable;

verus! {

#[verifier::external_type_specification]
#[verifier::external_body]
pub struct ExPermutationTable(PermutationTable);

/// Relies on noise's `PermutationTable::new`, which builds the seeded table the
/// gradient noise hashes lattice points with. It is deterministic in the seed and
/// never panics; nothing about the table's contents is used here.
pub assume_specification[ PermutationTable::new ](seed: u32) -> PermutationTable;

/// The seeded state behind the two noise fields of a map: one permutation table
/// for elevation and an independent one for humidity.
pub struct MapNoiseGenerator {
    elevation_seed: u32,
    humidity_seed: u32,
    elevation_hasher: PermutationTable,
    humidity_hasher: PermutationTable,
}

impl MapNoiseGenerator {
    /// The seed the elevation table was built from.
    pub closed spec fn spec_elevation_seed(&self) -> u32 {
        self.elevation_seed
    }

    /// The seed the humidity table was built from.
    pub closed spec fn spec_humidity_seed(&self) -> u32 {
        self.humidity_seed
    }

    /// Builds both tables, each from its own seed.
    pub fn new(elevation_seed: u32, humidity_seed: u32) -> (r: Self)
        ensures
            r.spec_elevation_seed() == elevation_seed,
            r.spec_humidity_seed() == humidity_seed,
    {
        MapNoiseGenerator {
            elevation_seed,
            humidity_seed,
            elevation_hasher: PermutationTable::new(elevation_seed),
            humidity_hasher: PermutationTable::new(humidity_seed),
        }
    }

    /// The seed the elevation table was built from.
    pub fn elevation_seed(&self) -> (r: u32)
        ensures
            r == self.spec_elevation_seed(),
    {
        self.elevation_seed
    }

    /// The seed the humidity table was built from.
    pub fn humidity_seed(&self) -> (r: u32)
        ensures
            r == self.spec_humidity_seed(),
    {
        self.humidity_seed
    }

    /// The table elevation noise is sampled with.
    pub fn elevation_hasher(&self) -> &PermutationTable {
        &self.elevation_hasher
    }

    /// The table humidity noise is sampled with.
    pub fn humidity_hasher(&self) -> &PermutationTable {
        &self.humidity_hasher
    }
}

} // verus!
