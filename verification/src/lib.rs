//! Camera-and-view-mode controller for a frame-driven 3D simulation loop.
//!
//! The library holds the mode state machine and the per-frame derivation
//! algorithms that turn mode + input + player pose into camera placement:
//! the point-of-view / free-roam mode switcher, the yaw/pitch look
//! accumulator, the fixed-step main-camera transform resolver, the
//! free-roam movement integrator, and the player-input gate.
//!
//! All continuous quantities are carried as fixed-point integers: angles in
//! millidegrees, positions in milli-units, speeds in milli-units per second,
//! times in milliseconds. The host converts to and from its own float
//! representation at the edge.

pub mod frame;
pub mod gate;
pub mod look;
pub mod modes;
pub mod mover;
pub mod resolver;
pub mod vec3;
