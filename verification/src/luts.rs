use vstd::prelude::*;

use crate::resource::{BufferDesc, USAGE_STORAGE};

verus! {

/// Number of entries in the blue-noise ranking tile for 64 samples per
/// pixel.
pub const RANKING_TILE_LEN: usize = 131072;

/// Number of entries in the blue-noise scrambling tile for 64 samples per
/// pixel.
pub const SCRAMBLING_TILE_LEN: usize = 131072;

/// Number of entries in the Sobol sequence table.
pub const SOBOL_LEN: usize = 65536;

/// Relies on blue_noise_sampler::spp64::RANKING_TILE: a fixed read-only
/// table of 131072 entries.
#[verifier::external_body]
pub fn ranking_tile_table() -> (r: Vec<i32>)
    ensures
        r@.len() == RANKING_TILE_LEN,
{
    blue_noise_sampler::spp64::RANKING_TILE.to_vec()
}

/// Relies on blue_noise_sampler::spp64::SCRAMBLING_TILE: a fixed read-only
/// table of 131072 entries.
#[verifier::external_body]
pub fn scrambling_tile_table() -> (r: Vec<i32>)
    ensures
        r@.len() == SCRAMBLING_TILE_LEN,
{
    blue_noise_sampler::spp64::SCRAMBLING_TILE.to_vec()
}

/// Relies on blue_noise_sampler::spp64::SOBOL: a fixed read-only table of
/// 65536 entries.
#[verifier::external_body]
pub fn sobol_table() -> (r: Vec<i32>)
    ensures
        r@.len() == SOBOL_LEN,
{
    blue_noise_sampler::spp64::SOBOL.to_vec()
}

/// The descriptor of the read-only GPU storage buffer holding a lookup
/// table: one 4-byte entry per element.
pub fn make_lut_buffer(v: &Vec<i32>) -> (b: BufferDesc)
    requires
        4 * v@.len() <= usize::MAX,
    ensures
        b.size_bytes == 4 * v@.len(),
        b.usage == USAGE_STORAGE,
{
    BufferDesc { size_bytes: 4 * v.len(), usage: USAGE_STORAGE }
}

} // verus!
