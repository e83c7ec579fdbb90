//! The CPU-side simulation state: one owner for the configuration, the
//! surface extent, the last mouse position and the active command, mutated
//! only through its methods and read once per frame to produce the values
//! pushed into the GPU's uniform buffers.

use vstd::prelude::*;
use crate::command::{apply_key, next_command, Command, CommandUniform, KeyPress};
use crate::config::SimulationConfig;
use crate::dispatch::DispatchSize;
use crate::mouse::{ndc_x_num, ndc_y_num, NdcPos, MAX_PIXEL_COORD};
use crate::surface::SurfaceExtent;
use crate::timing::{clamp_delta_nanos, clamped_delta, MAX_DELTA_NANOS};

verus! {

/// The per-frame time parameters: the clamped integration delta and the
/// fixed particle count.
#[derive(Copy, Clone, Debug, PartialEq, Eq, Structural)]
pub struct TimeParams {
    pub delta_nanos: u64,
    pub particle_count: u32,
}

/// The window's pixel extent as the shader reads it.
#[derive(Copy, Clone, Debug, PartialEq, Eq, Structural)]
pub struct ResolutionParams {
    pub width: u32,
    pub height: u32,
}

/// Everything the uniform channel pushes to the GPU for one frame: time,
/// mouse, resolution and command, all freshly computed from the CPU state.
#[derive(Copy, Clone, Debug, PartialEq, Eq, Structural)]
pub struct FrameUniforms {
    pub time: TimeParams,
    pub mouse: NdcPos,
    pub resolution: ResolutionParams,
    pub command: CommandUniform,
}

/// The CPU-side simulation state, constructed once at startup and mutated
/// only by the event handlers below.
pub struct SimState {
    pub config: SimulationConfig,
    pub extent: SurfaceExtent,
    pub mouse: NdcPos,
    pub command: Command,
}

impl SimState {
    /// The state's invariant: a usable configuration and a positive-area
    /// surface extent, established at construction and preserved by every
    /// method.
    pub open spec fn wf(self) -> bool {
        &&& self.config.wf()
        &&& self.extent.wf()
    }

    /// Builds the start state: the given configuration and window extent,
    /// the mouse at the center, and the command machine in Roam.
    pub fn new(config: SimulationConfig, width: u32, height: u32) -> (r: SimState)
        requires
            config.wf(),
            width > 0,
            height > 0,
        ensures
            r.wf(),
            r.config == config,
            r.extent.width == width,
            r.extent.height == height,
            r.command == Command::Roam,
            r.mouse.x_num == 0 && r.mouse.y_num == 0,
    {
        SimState {
            config,
            extent: SurfaceExtent::new(width, height),
            mouse: NdcPos::center(),
            command: Command::Roam,
        }
    }

    /// Handles a window resize: a positive-area request replaces the extent
    /// and asks for a surface reconfiguration; a zero-area request is a
    /// no-op on the extent. Nothing else changes.
    pub fn resize(&mut self, new_width: u32, new_height: u32) -> (reconfigure: bool)
        requires
            old(self).wf(),
        ensures
            final(self).wf(),
            reconfigure == (new_width > 0 && new_height > 0),
            reconfigure ==> final(self).extent.width == new_width && final(self).extent.height
                == new_height,
            !reconfigure ==> final(self).extent == old(self).extent,
            final(self).config == old(self).config,
            final(self).mouse == old(self).mouse,
            final(self).command == old(self).command,
    {
        self.extent.resize(new_width, new_height)
    }

    /// Handles a pointer move: the stored mouse position becomes the exact
    /// normalized device coordinates of the pointer within the current
    /// extent. Nothing else changes.
    pub fn mouse_moved(&mut self, px: i64, py: i64)
        requires
            old(self).wf(),
            -MAX_PIXEL_COORD < px < MAX_PIXEL_COORD,
            -MAX_PIXEL_COORD < py < MAX_PIXEL_COORD,
        ensures
            final(self).wf(),
            final(self).mouse.x_num == ndc_x_num(px as int, old(self).extent.width as int),
            final(self).mouse.y_num == ndc_y_num(py as int, old(self).extent.height as int),
            final(self).mouse.width == old(self).extent.width,
            final(self).mouse.height == old(self).extent.height,
            final(self).config == old(self).config,
            final(self).extent == old(self).extent,
            final(self).command == old(self).command,
    {
        self.mouse = NdcPos::from_pixels(px, py, self.extent.width, self.extent.height);
    }

    /// Handles a keyboard event through the command state machine. Nothing
    /// else changes.
    pub fn keyboard_input(&mut self, key: &KeyPress)
        requires
            old(self).wf(),
        ensures
            final(self).wf(),
            final(self).command == next_command(old(self).command, *key),
            final(self).config == old(self).config,
            final(self).extent == old(self).extent,
            final(self).mouse == old(self).mouse,
    {
        self.command = apply_key(self.command, key);
    }

    /// Computes the values the uniform channel pushes for this frame: the
    /// measured wall-clock gap clamped into `(0, 0.1]` seconds, the fixed
    /// particle count, the last mouse position, the current extent, and the
    /// active command's encoding.
    pub fn frame_uniforms(&self, elapsed_nanos: u64) -> (r: FrameUniforms)
        requires
            self.wf(),
        ensures
            r.time.delta_nanos == clamped_delta(elapsed_nanos),
            0 < r.time.delta_nanos <= MAX_DELTA_NANOS,
            r.time.particle_count == self.config.particle_count,
            r.mouse == self.mouse,
            r.resolution.width == self.extent.width,
            r.resolution.height == self.extent.height,
            r.command.command == self.command.encoding(),
    {
        FrameUniforms {
            time: TimeParams {
                delta_nanos: clamp_delta_nanos(elapsed_nanos),
                particle_count: self.config.particle_count,
            },
            mouse: self.mouse,
            resolution: ResolutionParams {
                width: self.extent.width,
                height: self.extent.height,
            },
            command: CommandUniform::from_command(self.command),
        }
    }

    /// Sizes the compute dispatch for the configured particle count: enough
    /// invocations to cover every particle, within the hardware limit.
    pub fn dispatch_size(&self) -> (r: DispatchSize)
        requires
            self.wf(),
        ensures
            r.invocations() >= self.config.particle_count,
            r.x == crate::dispatch::MAX_WORKGROUPS_PER_DIM,
            r.y >= 1,
            r.y <= crate::dispatch::MAX_WORKGROUPS_PER_DIM,
            r.z == 1,
    {
        DispatchSize::for_particles(self.config.particle_count)
    }

    /// The vertex count of the frame's draw call: six per particle.
    pub fn draw_vertex_count(&self) -> (r: u32)
        requires
            self.wf(),
        ensures
            r == self.config.particle_count * 6,
    {
        self.config.vertex_count()
    }
}

} // verus!
