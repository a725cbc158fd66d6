//! Particle physics and firework lifecycle engine for an animated fireworks
//! display.
//!
//! All lengths are measured in sub-pixels (a thousandth of a pixel) so that
//! the motion integrator works on exact integers. Randomness is drawn inside
//! the engine; where a result depends on a draw, a sibling function takes the
//! draw as an argument and its result is fully determined by it (`new_with`,
//! `launch_with`, `burst_with`, `burst_offset`, `pick_colour`). Sounds and
//! drawing are handed back to the host as plain values (`Cue`, `Mark`).
pub mod chance;
pub mod colour;
pub mod colour_shift;
pub mod fireworks;
pub mod graphics;
pub mod maths;
pub mod shell;
pub mod sim;
pub mod sparkle;
pub mod standard;
