//! Particle initialization. Particle state is held in milli-units
//! (thousandths), so the start region `[-0.9, 0.9]` on each axis is
//! `[-900, 900]` and the start velocity range `[-0.1, 0.1]` is
//! `[-100, 100]`. The buffer is sized once from the configured count and
//! every particle starts inside the region with zero acceleration.

use vstd::prelude::*;

verus! {

/// Magnitude bound of a start position on each axis, in milli-units: 0.9.
pub const POSITION_BOUND_MILLIS: u32 = 900;

/// Magnitude bound of a start velocity on each axis, in milli-units: 0.1.
pub const VELOCITY_BOUND_MILLIS: u32 = 100;

/// A two-component vector in milli-units.
#[derive(Copy, Clone, Debug, PartialEq, Eq, Structural)]
pub struct Vec2Millis {
    pub x: i32,
    pub y: i32,
}

impl Vec2Millis {
    /// Both components lie within `bound` in magnitude.
    pub open spec fn within(self, bound: int) -> bool {
        &&& -bound <= self.x <= bound
        &&& -bound <= self.y <= bound
    }
}

/// One simulated body: position, velocity and acceleration in milli-units.
#[derive(Copy, Clone, Debug, PartialEq, Eq, Structural)]
pub struct Particle {
    pub position: Vec2Millis,
    pub velocity: Vec2Millis,
    pub acceleration: Vec2Millis,
}

impl Particle {
    /// A freshly initialized particle: position inside the start region,
    /// velocity inside the start range, acceleration zero.
    pub open spec fn is_initial(self) -> bool {
        &&& self.position.within(POSITION_BOUND_MILLIS as int)
        &&& self.velocity.within(VELOCITY_BOUND_MILLIS as int)
        &&& self.acceleration == (Vec2Millis { x: 0, y: 0 })
    }
}

/// Relies on rand::random: draws an arbitrary `u32`; nothing is promised of
/// the value.
#[verifier::external_body]
fn random_u32() -> u32 {
    rand::random::<u32>()
}

/// Maps a raw draw onto `[-bound, bound]`.
fn scale_to_range(raw: u32, bound: u32) -> (r: i32)
    requires
        bound <= 1000,
    ensures
        -(bound as int) <= r <= bound as int,
{
    let span: u32 = 2 * bound + 1;
    let m: u32 = raw % span;
    m as i32 - bound as i32
}

/// Builds the start state of the particle buffer: exactly `count` particles,
/// each with a random position inside the start region, a random velocity
/// inside the start range, and zero acceleration.
pub fn init_particles(count: u32) -> (r: Vec<Particle>)
    ensures
        r@.len() == count,
        forall|i: int| 0 <= i < count ==> r@[i].is_initial(),
{
    let mut particles: Vec<Particle> = Vec::new();
    let mut n: u32 = 0;
    while n < count
        invariant
            n <= count,
            particles@.len() == n,
            forall|i: int| 0 <= i < n ==> particles@[i].is_initial(),
        decreases count - n,
    {
        let particle = Particle {
            position: Vec2Millis {
                x: scale_to_range(random_u32(), POSITION_BOUND_MILLIS),
                y: scale_to_range(random_u32(), POSITION_BOUND_MILLIS),
            },
            velocity: Vec2Millis {
                x: scale_to_range(random_u32(), VELOCITY_BOUND_MILLIS),
                y: scale_to_range(random_u32(), VELOCITY_BOUND_MILLIS),
            },
            acceleration: Vec2Millis { x: 0, y: 0 },
        };
        particles.push(particle);
        n += 1;
    }
    particles
}

} // verus!
