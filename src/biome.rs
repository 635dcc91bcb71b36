use vstd::prelude::*;

verus! {

/// Humidity is carried as an integer count of millionths: `HUMIDITY_SCALE` stands for 1.0.
pub const HUMIDITY_SCALE: u64 = 1_000_000;

/// The kinds of terrain a map cell can be classified as.
#[derive(Clone, Copy, Debug, PartialEq, Eq, Structural)]
pub enum Biome {
    Ocean,
    Beach,
    Scorched,
    Bare,
    Tundra,
    Snow,
    TemperateDesert,
    ShrubLand,
    Taiga,
    Grassland,
    TemperateDeciduousForest,
    TemperateRainForest,
    SubtropicalDesert,
    TropicalSeasonalForest,
    TropicalRainForest,
}

/// The number of biome variants.
pub const BIOME_COUNT: usize = 15;

/// The biome of a cell, as a priority cascade over elevation (0..=1000) and
/// humidity (in millionths): the first matching rule wins.
pub open spec fn biome_of(elevation: int, humidity: int) -> Biome {
    if elevation < 100 {
        Biome::Ocean
    } else if elevation < 120 {
        Biome::Beach
    } else if elevation > 800 {
        if humidity < 100_000 {
            Biome::Scorched
        } else if humidity < 200_000 {
            Biome::Bare
        } else if humidity < 500_000 {
            Biome::Tundra
        } else {
            Biome::Snow
        }
    } else if elevation > 600 {
        if humidity < 330_000 {
            Biome::TemperateDesert
        } else if humidity < 660_000 {
            Biome::ShrubLand
        } else {
            Biome::Taiga
        }
    } else if elevation > 300 {
        if humidity < 160_000 {
            Biome::TemperateDesert
        } else if humidity < 500_000 {
            Biome::Grassland
        } else if humidity < 830_000 {
            Biome::TemperateDeciduousForest
        } else {
            Biome::TemperateRainForest
        }
    } else {
        if humidity < 160_000 {
            Biome::SubtropicalDesert
        } else if humidity < 330_000 {
            Biome::Grassland
        } else if humidity < 660_000 {
            Biome::TropicalSeasonalForest
        } else {
            Biome::TropicalRainForest
        }
    }
}

/// The region of the (elevation, humidity) plane that belongs to `b`, written as
/// explicit bands rather than as a cascade.
pub open spec fn in_region(b: Biome, e: int, h: int) -> bool {
    match b {
        Biome::Ocean => e < 100,
        Biome::Beach => 100 <= e < 120,
        Biome::Scorched => e > 800 && h < 100_000,
        Biome::Bare => e > 800 && 100_000 <= h < 200_000,
        Biome::Tundra => e > 800 && 200_000 <= h < 500_000,
        Biome::Snow => e > 800 && 500_000 <= h,
        Biome::TemperateDesert => (600 < e <= 800 && h < 330_000) || (300 < e <= 600 && h
            < 160_000),
        Biome::ShrubLand => 600 < e <= 800 && 330_000 <= h < 660_000,
        Biome::Taiga => 600 < e <= 800 && 660_000 <= h,
        Biome::Grassland => (300 < e <= 600 && 160_000 <= h < 500_000) || (120 <= e <= 300
            && 160_000 <= h < 330_000),
        Biome::TemperateDeciduousForest => 300 < e <= 600 && 500_000 <= h < 830_000,
        Biome::TemperateRainForest => 300 < e <= 600 && 830_000 <= h,
        Biome::SubtropicalDesert => 120 <= e <= 300 && h < 160_000,
        Biome::TropicalSeasonalForest => 120 <= e <= 300 && 330_000 <= h < 660_000,
        Biome::TropicalRainForest => 120 <= e <= 300 && 660_000 <= h,
    }
}

/// Classification is total and unambiguous: every (elevation, humidity) pair with
/// elevation in 0..=1000 and humidity in 0..=1 lies in the region of exactly one
/// biome, and that biome is the one the cascade picks.
pub proof fn lemma_classification_total(elevation: int, humidity: int)
    requires
        0 <= elevation <= 1000,
        0 <= humidity <= HUMIDITY_SCALE,
    ensures
        in_region(biome_of(elevation, humidity), elevation, humidity),
        forall|b: Biome| #[trigger] in_region(b, elevation, humidity) ==> b == biome_of(elevation, humidity),
{
}

/// The position of `b` in the declaration order of `Biome`.
pub open spec fn ordinal(b: Biome) -> int {
    match b {
        Biome::Ocean => 0,
        Biome::Beach => 1,
        Biome::Scorched => 2,
        Biome::Bare => 3,
        Biome::Tundra => 4,
        Biome::Snow => 5,
        Biome::TemperateDesert => 6,
        Biome::ShrubLand => 7,
        Biome::Taiga => 8,
        Biome::Grassland => 9,
        Biome::TemperateDeciduousForest => 10,
        Biome::TemperateRainForest => 11,
        Biome::SubtropicalDesert => 12,
        Biome::TropicalSeasonalForest => 13,
        Biome::TropicalRainForest => 14,
    }
}

/// The display color of each biome, as red, green and blue bytes.
pub open spec fn rgb_of(b: Biome) -> [u8; 3] {
    match b {
        Biome::Ocean => [68, 70, 121],
        Biome::Beach => [160, 144, 121],
        Biome::Scorched => [85, 85, 85],
        Biome::Bare => [136, 136, 136],
        Biome::Tundra => [187, 187, 171],
        Biome::Snow => [221, 221, 228],
        Biome::TemperateDesert => [201, 209, 158],
        Biome::ShrubLand => [137, 153, 121],
        Biome::Taiga => [154, 169, 122],
        Biome::Grassland => [137, 169, 90],
        Biome::TemperateDeciduousForest => [105, 147, 92],
        Biome::TemperateRainForest => [71, 135, 87],
        Biome::SubtropicalDesert => [210, 185, 142],
        Biome::TropicalSeasonalForest => [87, 152, 73],
        Biome::TropicalRainForest => [54, 119, 86],
    }
}

/// Classifies a cell by its elevation and its humidity (in millionths).
pub fn classify(elevation: u64, humidity: u64) -> (r: Biome)
    ensures
        r == biome_of(elevation as int, humidity as int),
{
    if elevation < 100 {
        return Biome::Ocean;
    }
    if elevation < 120 {
        return Biome::Beach;
    }
    if elevation > 800 {
        if humidity < 100_000 {
            return Biome::Scorched;
        }
        if humidity < 200_000 {
            return Biome::Bare;
        }
        if humidity < 500_000 {
            return Biome::Tundra;
        }
        return Biome::Snow;
    }
    if elevation > 600 {
        if humidity < 330_000 {
            return Biome::TemperateDesert;
        }
        if humidity < 660_000 {
            return Biome::ShrubLand;
        }
        return Biome::Taiga;
    }
    if elevation > 300 {
        if humidity < 160_000 {
            return Biome::TemperateDesert;
        }
        if humidity < 500_000 {
            return Biome::Grassland;
        }
        if humidity < 830_000 {
            return Biome::TemperateDeciduousForest;
        }
        return Biome::TemperateRainForest;
    }
    if humidity < 160_000 {
        return Biome::SubtropicalDesert;
    }
    if humidity < 330_000 {
        return Biome::Grassland;
    }
    if humidity < 660_000 {
        return Biome::TropicalSeasonalForest;
    }
    Biome::TropicalRainForest
}

impl Biome {
    /// The position of this variant in the declaration order.
    pub fn index(self) -> (r: usize)
        ensures
            r as int == ordinal(self),
            r < BIOME_COUNT,
    {
        match self {
            Biome::Ocean => 0,
            Biome::Beach => 1,
            Biome::Scorched => 2,
            Biome::Bare => 3,
            Biome::Tundra => 4,
            Biome::Snow => 5,
            Biome::TemperateDesert => 6,
            Biome::ShrubLand => 7,
            Biome::Taiga => 8,
            Biome::Grassland => 9,
            Biome::TemperateDeciduousForest => 10,
            Biome::TemperateRainForest => 11,
            Biome::SubtropicalDesert => 12,
            Biome::TropicalSeasonalForest => 13,
            Biome::TropicalRainForest => 14,
        }
    }
}

/// A lookup table from each biome to its color, one entry per variant, held at
/// the variant's ordinal.
pub struct BiomeColorTable {
    colors: Vec<[u8; 3]>,
}

impl BiomeColorTable {
    /// The entries of the table, in ordinal order.
    pub closed spec fn entries(&self) -> Seq<[u8; 3]> {
        self.colors@
    }

    /// Every variant's color sits at its ordinal, and there is nothing else.
    pub open spec fn wf(&self) -> bool {
        &&& self.entries().len() == BIOME_COUNT
        &&& forall|b: Biome| #[trigger] self.entries()[ordinal(b)] == rgb_of(b)
    }

    /// Builds the table of all biome colors.
    pub fn new() -> (r: Self)
        ensures
            r.wf(),
    {
        let mut colors: Vec<[u8; 3]> = Vec::with_capacity(BIOME_COUNT);
        colors.push([68, 70, 121]);
        colors.push([160, 144, 121]);
        colors.push([85, 85, 85]);
        colors.push([136, 136, 136]);
        colors.push([187, 187, 171]);
        colors.push([221, 221, 228]);
        colors.push([201, 209, 158]);
        colors.push([137, 153, 121]);
        colors.push([154, 169, 122]);
        colors.push([137, 169, 90]);
        colors.push([105, 147, 92]);
        colors.push([71, 135, 87]);
        colors.push([210, 185, 142]);
        colors.push([87, 152, 73]);
        colors.push([54, 119, 86]);
        let r = BiomeColorTable { colors };
        assert forall|b: Biome| #[trigger] r.entries()[ordinal(b)] == rgb_of(b) by {
            match b {
                Biome::Ocean => {},
                Biome::Beach => {},
                Biome::Scorched => {},
                Biome::Bare => {},
                Biome::Tundra => {},
                Biome::Snow => {},
                Biome::TemperateDesert => {},
                Biome::ShrubLand => {},
                Biome::Taiga => {},
                Biome::Grassland => {},
                Biome::TemperateDeciduousForest => {},
                Biome::TemperateRainForest => {},
                Biome::SubtropicalDesert => {},
                Biome::TropicalSeasonalForest => {},
                Biome::TropicalRainForest => {},
            }
        }
        r
    }

    /// The color of `biome`.
    pub fn get(&self, biome: Biome) -> (r: [u8; 3])
        requires
            self.wf(),
        ensures
            r == rgb_of(biome),
    {
        self.colors[biome.index()]
    }
}

/// The variant whose ordinal is `i` (the last variant past the end).
pub open spec fn biome_with_ordinal(i: int) -> Biome {
    if i <= 0 {
        Biome::Ocean
    } else if i == 1 {
        Biome::Beach
    } else if i == 2 {
        Biome::Scorched
    } else if i == 3 {
        Biome::Bare
    } else if i == 4 {
        Biome::Tundra
    } else if i == 5 {
        Biome::Snow
    } else if i == 6 {
        Biome::TemperateDesert
    } else if i == 7 {
        Biome::ShrubLand
    } else if i == 8 {
        Biome::Taiga
    } else if i == 9 {
        Biome::Grassland
    } else if i == 10 {
        Biome::TemperateDeciduousForest
    } else if i == 11 {
        Biome::TemperateRainForest
    } else if i == 12 {
        Biome::SubtropicalDesert
    } else if i == 13 {
        Biome::TropicalSeasonalForest
    } else {
        Biome::TropicalRainForest
    }
}

/// The color table is complete: each biome variant owns exactly one entry of a
/// well-formed table, no two variants share an entry, and every entry belongs to
/// some variant.
pub proof fn lemma_color_table_complete(t: &BiomeColorTable)
    requires
        t.wf(),
    ensures
        forall|b: Biome|
            0 <= #[trigger] ordinal(b) < t.entries().len() && t.entries()[ordinal(b)] == rgb_of(b),
        forall|b1: Biome, b2: Biome| #[trigger] ordinal(b1) == #[trigger] ordinal(b2) ==> b1 == b2,
        forall|i: int|
            0 <= i < t.entries().len() ==> ordinal(#[trigger] biome_with_ordinal(i)) == i,
{
}

} // verus!
