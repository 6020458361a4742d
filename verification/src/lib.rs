//! Core of a grid snake simulation: board geometry, the snake's positional
//! state machine, reward bookkeeping, and per-tick orchestration.
//!
//! Rendering, windowing and input devices are outside collaborators: the core
//! exchanges only plain values with them (grid cells, world points, opaque
//! entity handles) and never draws or reads a device itself.

pub mod constant;
pub mod grid;
pub mod snake;
pub mod tick;
