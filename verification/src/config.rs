//! The startup configuration: the particle count and the quad size, fixed
//! for the process lifetime. The quad size is held exactly in micro-units
//! (millionths), so `1000` stands for a quad size of `0.001`.

use vstd::prelude::*;

verus! {

/// Particle counts beyond this bound would overflow the six-vertices-per-
/// particle draw range.
pub const MAX_PARTICLE_COUNT: u32 = 0xFFFF_FFFF / 6;

/// The simulation configuration, supplied once before the core initializes:
/// how many particles to simulate and the rendered quad size in micro-units.
#[derive(Copy, Clone, Debug, PartialEq, Eq, Structural)]
pub struct SimulationConfig {
    pub particle_count: u32,
    pub quad_size_micros: u64,
}

impl SimulationConfig {
    /// A usable configuration has a positive particle count that the draw
    /// range can carry, and a positive quad size.
    pub open spec fn wf(self) -> bool {
        &&& 0 < self.particle_count <= MAX_PARTICLE_COUNT
        &&& self.quad_size_micros > 0
    }

    /// Validates externally supplied values: a configuration comes back
    /// exactly when the particle count is positive and within the draw
    /// range's bound and the quad size is positive; otherwise the values
    /// are rejected as a startup precondition violation.
    pub fn validated(particle_count: u32, quad_size_micros: u64) -> (r: Option<SimulationConfig>)
        ensures
            match r {
                Some(c) => c.particle_count == particle_count && c.quad_size_micros
                    == quad_size_micros && c.wf(),
                None => !(SimulationConfig { particle_count, quad_size_micros }).wf(),
            },
    {
        if particle_count > 0 && particle_count <= MAX_PARTICLE_COUNT && quad_size_micros > 0 {
            Some(SimulationConfig { particle_count, quad_size_micros })
        } else {
            None
        }
    }

    /// The number of vertices the render pass draws: six per particle, two
    /// triangles forming one quad.
    pub fn vertex_count(&self) -> (r: u32)
        requires
            self.wf(),
        ensures
            r == self.particle_count * 6,
    {
        self.particle_count * 6
    }
}

impl Default for SimulationConfig {
    /// The configuration used when none was persisted: 1000 particles with
    /// a quad size of 0.001.
    fn default() -> (r: Self)
        ensures
            r.particle_count == 1000,
            r.quad_size_micros == 1000,
            r.wf(),
    {
        SimulationConfig { particle_count: 1000, quad_size_micros: 1000 }
    }
}

} // verus!
