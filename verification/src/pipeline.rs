//! The pipeline wiring: which buffer binds to which slot of each of the two
//! independent GPU pipelines, with what access and which stage visibility.
//! The particle buffer appears in both layouts — read-write for the compute
//! stage, read-only for the vertex stage — so exclusive-write-then-read
//! access within a frame is enforced by construction.

use vstd::prelude::*;

verus! {

/// The shader stage a binding is visible to.
#[derive(Copy, Clone, Debug, PartialEq, Eq, Structural)]
pub enum StageVisibility {
    Compute,
    Vertex,
}

/// How a bound buffer may be accessed by the stage.
#[derive(Copy, Clone, Debug, PartialEq, Eq, Structural)]
pub enum BufferAccess {
    /// A small read-only parameter block.
    Uniform,
    /// A storage buffer, writable unless `read_only`.
    Storage { read_only: bool },
}

/// The buffer a slot carries.
#[derive(Copy, Clone, Debug, PartialEq, Eq, Structural)]
pub enum BufferRole {
    Time,
    Particles,
    Mouse,
    Resolution,
    Command,
}

/// One slot of a bind-group layout: the slot number, the stage that reads
/// it, the access it grants, and the buffer bound to it.
#[derive(Copy, Clone, Debug, PartialEq, Eq, Structural)]
pub struct BindingSlot {
    pub binding: u32,
    pub visibility: StageVisibility,
    pub access: BufferAccess,
    pub role: BufferRole,
}

/// The compute pipeline's bind-group layout: time, particles, mouse and
/// command, all compute-visible, the particle buffer read-write and the
/// three parameter blocks uniform.
pub fn compute_bind_layout() -> (r: Vec<BindingSlot>)
    ensures
        r@.len() == 4,
        r@[0] == (BindingSlot {
            binding: 0,
            visibility: StageVisibility::Compute,
            access: BufferAccess::Uniform,
            role: BufferRole::Time,
        }),
        r@[1] == (BindingSlot {
            binding: 1,
            visibility: StageVisibility::Compute,
            access: BufferAccess::Storage { read_only: false },
            role: BufferRole::Particles,
        }),
        r@[2] == (BindingSlot {
            binding: 2,
            visibility: StageVisibility::Compute,
            access: BufferAccess::Uniform,
            role: BufferRole::Mouse,
        }),
        r@[3] == (BindingSlot {
            binding: 3,
            visibility: StageVisibility::Compute,
            access: BufferAccess::Uniform,
            role: BufferRole::Command,
        }),
{
    let mut slots: Vec<BindingSlot> = Vec::new();
    slots.push(BindingSlot {
        binding: 0,
        visibility: StageVisibility::Compute,
        access: BufferAccess::Uniform,
        role: BufferRole::Time,
    });
    slots.push(BindingSlot {
        binding: 1,
        visibility: StageVisibility::Compute,
        access: BufferAccess::Storage { read_only: false },
        role: BufferRole::Particles,
    });
    slots.push(BindingSlot {
        binding: 2,
        visibility: StageVisibility::Compute,
        access: BufferAccess::Uniform,
        role: BufferRole::Mouse,
    });
    slots.push(BindingSlot {
        binding: 3,
        visibility: StageVisibility::Compute,
        access: BufferAccess::Uniform,
        role: BufferRole::Command,
    });
    slots
}

/// The render pipeline's bind-group layout: the particle buffer read-only
/// and the resolution block, both vertex-visible. No vertex input buffers
/// exist; geometry is generated procedurally in the vertex stage.
pub fn render_bind_layout() -> (r: Vec<BindingSlot>)
    ensures
        r@.len() == 2,
        r@[0] == (BindingSlot {
            binding: 1,
            visibility: StageVisibility::Vertex,
            access: BufferAccess::Storage { read_only: true },
            role: BufferRole::Particles,
        }),
        r@[1] == (BindingSlot {
            binding: 2,
            visibility: StageVisibility::Vertex,
            access: BufferAccess::Uniform,
            role: BufferRole::Resolution,
        }),
{
    let mut slots: Vec<BindingSlot> = Vec::new();
    slots.push(BindingSlot {
        binding: 1,
        visibility: StageVisibility::Vertex,
        access: BufferAccess::Storage { read_only: true },
        role: BufferRole::Particles,
    });
    slots.push(BindingSlot {
        binding: 2,
        visibility: StageVisibility::Vertex,
        access: BufferAccess::Uniform,
        role: BufferRole::Resolution,
    });
    slots
}

} // verus!
