//! Workgroup dispatch sizing for the compute pass. Hardware bounds the
//! workgroup count along one dispatch dimension, so the dispatcher requests
//! the maximum along the first dimension and covers the remaining particles
//! with the second: enough invocations are launched to reach every particle,
//! and the compute program bounds-checks its invocation index.

use vstd::prelude::*;

verus! {

/// The hardware limit on workgroups along one dispatch dimension.
pub const MAX_WORKGROUPS_PER_DIM: u32 = 65535;

/// Threads per workgroup, fixed by the compute program.
pub const THREADS_PER_WORKGROUP: u32 = 256;

/// Invocations covered by one full slice of the first dispatch dimension.
pub const INVOCATIONS_PER_SLICE: u32 = 65535 * 256;

/// Workgroup counts along the three dispatch dimensions.
#[derive(Copy, Clone, Debug, PartialEq, Eq, Structural)]
pub struct DispatchSize {
    pub x: u32,
    pub y: u32,
    pub z: u32,
}

/// The number of second-dimension slices needed to cover `particle_count`
/// invocations: the ceiling of `particle_count / INVOCATIONS_PER_SLICE`.
pub open spec fn slices_needed(particle_count: u32) -> int {
    (particle_count + INVOCATIONS_PER_SLICE - 1) as int / INVOCATIONS_PER_SLICE as int
}

impl DispatchSize {
    /// Total invocations the dispatch launches.
    pub open spec fn invocations(self) -> int {
        self.x * self.y * self.z * THREADS_PER_WORKGROUP
    }

    /// Sizes the dispatch for `particle_count` particles: the first dimension
    /// is pinned at the hardware limit, the second is the smallest count that
    /// covers the rest, the third is unused. Every particle gets an
    /// invocation, and no dimension exceeds the hardware limit.
    pub fn for_particles(particle_count: u32) -> (r: DispatchSize)
        ensures
            r.x == MAX_WORKGROUPS_PER_DIM,
            r.z == 1,
            r.y == slices_needed(particle_count),
            r.y <= MAX_WORKGROUPS_PER_DIM,
            particle_count > 0 ==> r.y >= 1,
            r.invocations() >= particle_count,
    {
        let y: u32 = if particle_count == 0 {
            0
        } else {
            (particle_count - 1) / INVOCATIONS_PER_SLICE + 1
        };
        proof {
            lemma_slices_cover(particle_count);
        }
        DispatchSize { x: MAX_WORKGROUPS_PER_DIM, y, z: 1 }
    }
}

/// Covering law of the sizing policy: for every positive particle count the
/// launched invocations `x * y * threads` reach every particle, while the
/// first dimension stays within the hardware limit.
pub proof fn lemma_slices_cover(particle_count: u32)
    ensures
        slices_needed(particle_count) <= MAX_WORKGROUPS_PER_DIM,
        particle_count > 0 ==> slices_needed(particle_count) >= 1,
        particle_count > 0 ==> slices_needed(particle_count) == (particle_count - 1) as int
            / INVOCATIONS_PER_SLICE as int + 1,
        MAX_WORKGROUPS_PER_DIM * slices_needed(particle_count) * 1 * THREADS_PER_WORKGROUP
            >= particle_count,
{
    let d = INVOCATIONS_PER_SLICE as int;
    let n = particle_count as int;
    let q = (n + d - 1) / d;
    assert(d == 16776960);
    vstd::arithmetic::div_mod::lemma_fundamental_div_mod(n + d - 1, d);
    if n > 0 {
        vstd::arithmetic::div_mod::lemma_fundamental_div_mod(n - 1, d);
        assert(q == (n - 1) / d + 1);
    }
    assert(q * d >= n) by {
        vstd::arithmetic::div_mod::lemma_fundamental_div_mod(n + d - 1, d);
        assert((n + d - 1) % d < d);
    };
    assert(65535 as int * q * 1 * 256 == q * d);
}

} // verus!
