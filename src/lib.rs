//! Procedural terrain maps: per-cell elevation and humidity, classified into
//! biomes and colored for rendering.

pub mod biome;
pub mod map;
pub mod map_noise_generator;

pub use biome::{classify, Biome, BiomeColorTable, HUMIDITY_SCALE};
pub use map::{MapColumn, TerrainMap};
pub use map_noise_generator::MapNoiseGenerator;
