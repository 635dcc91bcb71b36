use biome_map::{classify, Biome, BiomeColorTable, HUMIDITY_SCALE};

fn humidity(fraction_in_hundredths: u64) -> u64 {
    fraction_in_hundredths * HUMIDITY_SCALE / 100
}

#[test]
fn boundary_cases() {
    assert_eq!(classify(99, humidity(50)), Biome::Ocean);
    assert_eq!(classify(100, humidity(50)), Biome::Beach);
    assert_eq!(classify(119, humidity(50)), Biome::Beach);
    assert_eq!(classify(120, 0), Biome::SubtropicalDesert);
    assert_eq!(classify(850, humidity(5)), Biome::Scorched);
    assert_eq!(classify(850, humidity(15)), Biome::Bare);
    assert_eq!(classify(850, humidity(90)), Biome::Snow);
    assert_eq!(classify(400, humidity(90)), Biome::TemperateRainForest);
}

#[test]
fn elevation_band_edges_fall_to_the_lower_band() {
    assert_eq!(classify(300, humidity(90)), Biome::TropicalRainForest);
    assert_eq!(classify(301, humidity(90)), Biome::TemperateRainForest);
    assert_eq!(classify(600, humidity(90)), Biome::TemperateRainForest);
    assert_eq!(classify(601, humidity(90)), Biome::Taiga);
    assert_eq!(classify(800, humidity(90)), Biome::Taiga);
    assert_eq!(classify(801, humidity(90)), Biome::Snow);
    assert_eq!(classify(1000, humidity(40)), Biome::Tundra);
    assert_eq!(classify(0, HUMIDITY_SCALE), Biome::Ocean);
}

#[test]
fn humidity_thresholds_are_strict() {
    assert_eq!(classify(900, humidity(10) - 1), Biome::Scorched);
    assert_eq!(classify(900, humidity(10)), Biome::Bare);
    assert_eq!(classify(900, humidity(20)), Biome::Tundra);
    assert_eq!(classify(900, humidity(50)), Biome::Snow);
    assert_eq!(classify(700, humidity(33) - 1), Biome::TemperateDesert);
    assert_eq!(classify(700, humidity(33)), Biome::ShrubLand);
    assert_eq!(classify(700, humidity(66)), Biome::Taiga);
    assert_eq!(classify(500, humidity(16) - 1), Biome::TemperateDesert);
    assert_eq!(classify(500, humidity(16)), Biome::Grassland);
    assert_eq!(classify(500, humidity(50)), Biome::TemperateDeciduousForest);
    assert_eq!(classify(500, humidity(83)), Biome::TemperateRainForest);
    assert_eq!(classify(200, humidity(16)), Biome::Grassland);
    assert_eq!(classify(200, humidity(33)), Biome::TropicalSeasonalForest);
    assert_eq!(classify(200, humidity(66)), Biome::TropicalRainForest);
}

#[test]
fn every_grid_point_classifies() {
    let mut e: u64 = 0;
    while e <= 1000 {
        let mut h: u64 = 0;
        while h <= HUMIDITY_SCALE {
            let b = classify(e, h);
            assert!(b.index() < 15);
            h += 10_000;
        }
        e += 10;
    }
}

fn all_biomes() -> Vec<Biome> {
    vec![
        Biome::Ocean,
        Biome::Beach,
        Biome::Scorched,
        Biome::Bare,
        Biome::Tundra,
        Biome::Snow,
        Biome::TemperateDesert,
        Biome::ShrubLand,
        Biome::Taiga,
        Biome::Grassland,
        Biome::TemperateDeciduousForest,
        Biome::TemperateRainForest,
        Biome::SubtropicalDesert,
        Biome::TropicalSeasonalForest,
        Biome::TropicalRainForest,
    ]
}

#[test]
fn every_biome_has_its_own_index() {
    let biomes = all_biomes();
    for (i, b) in biomes.iter().enumerate() {
        assert_eq!(b.index(), i);
    }
}

#[test]
fn color_table_values() {
    let table = BiomeColorTable::new();
    assert_eq!(table.get(Biome::Ocean), [68, 70, 121]);
    assert_eq!(table.get(Biome::Beach), [160, 144, 121]);
    assert_eq!(table.get(Biome::Scorched), [85, 85, 85]);
    assert_eq!(table.get(Biome::Bare), [136, 136, 136]);
    assert_eq!(table.get(Biome::Tundra), [187, 187, 171]);
    assert_eq!(table.get(Biome::Snow), [221, 221, 228]);
    assert_eq!(table.get(Biome::TemperateDesert), [201, 209, 158]);
    assert_eq!(table.get(Biome::ShrubLand), [137, 153, 121]);
    assert_eq!(table.get(Biome::Taiga), [154, 169, 122]);
    assert_eq!(table.get(Biome::Grassland), [137, 169, 90]);
    assert_eq!(table.get(Biome::TemperateDeciduousForest), [105, 147, 92]);
    assert_eq!(table.get(Biome::TemperateRainForest), [71, 135, 87]);
    assert_eq!(table.get(Biome::SubtropicalDesert), [210, 185, 142]);
    assert_eq!(table.get(Biome::TropicalSeasonalForest), [87, 152, 73]);
    assert_eq!(table.get(Biome::TropicalRainForest), [54, 119, 86]);
}

#[test]
fn color_table_covers_every_variant() {
    let table = BiomeColorTable::new();
    let biomes = all_biomes();
    assert_eq!(biomes.len(), 15);
    for b in biomes.iter() {
        let c = table.get(*b);
        let owners = biomes.iter().filter(|o| table.get(**o) == c).count();
        assert_eq!(owners, 1);
    }
}
