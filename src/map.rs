//! The map-spawn request and the two walls that bound the corridor.
use vstd::prelude::*;

use crate::track::{wall_mesh, WallMesh, MAX_CYCLE_STEPS};

verus! {

/// Step count of a map request that does not name one.
pub const DEFAULT_CYCLE_STEPS: usize = 1000;

/// Distance of each wall from the track's centre line.
pub const WALL_LATERAL_OFFSET: i64 = 10;

/// A request to generate and spawn a map.
///
/// `seed` determines the noise of the walls; `cycle_steps` is the number of
/// segments of each wall.
#[derive(Clone, Copy, Debug, PartialEq, Eq)]
pub struct SpawnMap {
    pub seed: u32,
    pub cycle_steps: usize,
}

/// One wall of the corridor: its lateral offset from the centre line and its
/// mesh before noise is applied.
#[derive(Clone, Debug)]
pub struct CorridorWall {
    pub lateral_offset: i64,
    pub mesh: WallMesh,
}

/// Relies on rand::random: a value drawn from the thread-local generator.
/// Nothing is known of it. It panics only when the operating system's random
/// source fails while the generator is seeded or reseeded.
pub assume_specification<T>[ rand::random::<T> ]() -> (r: T)
    where
        rand::distributions::Standard: rand::distributions::Distribution<T>,
;

impl Default for SpawnMap {
    fn default() -> (r: Self)
        ensures
            r.seed == 0,
            r.cycle_steps == DEFAULT_CYCLE_STEPS,
    {
        SpawnMap { seed: 0, cycle_steps: DEFAULT_CYCLE_STEPS }
    }
}

impl SpawnMap {
    /// Requests a map generated with `seed` and the default step count.
    pub fn with_seed(seed: u32) -> (r: Self)
        ensures
            r.seed == seed,
            r.cycle_steps == DEFAULT_CYCLE_STEPS,
    {
        SpawnMap { seed, cycle_steps: DEFAULT_CYCLE_STEPS }
    }

    /// Requests a map generated with a random seed: `with_seed` of the value
    /// drawn from the generator.
    pub fn random() -> (r: Self)
        ensures
            r.cycle_steps == DEFAULT_CYCLE_STEPS,
    {
        SpawnMap::with_seed(rand::random::<u32>())
    }
}

/// Builds the mesh of one wall of the map that `config` requests.
pub fn generate_cycle_walls(config: &SpawnMap) -> (m: WallMesh)
    requires
        config.cycle_steps <= MAX_CYCLE_STEPS,
    ensures
        m.is_wall_of(config.cycle_steps as nat),
        m.well_formed(),
{
    wall_mesh(config.cycle_steps)
}

/// The two walls of the map that `config` requests: one at each side of the
/// centre line, at `-WALL_LATERAL_OFFSET` and `WALL_LATERAL_OFFSET`, each
/// the wall of `config.cycle_steps` segments.
pub fn spawn_map_walls(config: &SpawnMap) -> (r: Vec<CorridorWall>)
    requires
        config.cycle_steps <= MAX_CYCLE_STEPS,
    ensures
        r@.len() == 2,
        r@[0].lateral_offset == -WALL_LATERAL_OFFSET,
        r@[1].lateral_offset == WALL_LATERAL_OFFSET,
        r@[0].mesh.is_wall_of(config.cycle_steps as nat),
        r@[1].mesh.is_wall_of(config.cycle_steps as nat),
{
    let mut r: Vec<CorridorWall> = Vec::new();
    r.push(CorridorWall { lateral_offset: -WALL_LATERAL_OFFSET, mesh: generate_cycle_walls(config) });
    r.push(CorridorWall { lateral_offset: WALL_LATERAL_OFFSET, mesh: generate_cycle_walls(config) });
    r
}

} // verus!
