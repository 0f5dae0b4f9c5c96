//! Procedural corridor walls for a bike-racing track, and the discrete
//! decisions of the per-tick bike controller.
//!
//! The library holds the exact, integer part of the logic: the topology and
//! grid layout of each wall mesh, the spawn request, the input intent and the
//! step-sound debounce. Noise sampling and the floating-point physics are done
//! by the program around it.

pub mod camera;
pub mod map;
pub mod movement;
pub mod player;
pub mod sfx;
pub mod track;
