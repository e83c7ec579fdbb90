//! Core logic of a GPU particle simulation: the command state machine,
//! workgroup dispatch sizing, frame timing, mouse coordinate conversion,
//! surface reconfiguration policy, shader-source templating, and particle
//! initialization. GPU submission and windowing live outside the library;
//! the library computes every decision they act on.

pub mod command;
pub mod config;
pub mod decimal;
pub mod dispatch;
pub mod mouse;
pub mod particles;
pub mod pipeline;
pub mod sim;
pub mod surface;
pub mod template;
pub mod timing;
