//! Emulation core of the Atari Asteroids arcade board: the two vector
//! generators, the memory bus, frame scheduling, input state, ROM loading and
//! the data handed to the renderer.
#![allow(non_camel_case_types)]

mod bits;
pub mod bus;
mod decimal;
pub mod dvg;
pub mod dvg_length;
pub mod dvg_simple;
pub mod input;
pub mod machine;
pub mod pixels;
pub mod rom;
pub mod shader;
pub mod types;

pub use input::GamepadInputs;
pub use machine::{Frame, CLOCK_SPEED, NMI_PERIOD_TICKS};
pub use rom::{RomError, ROM};
pub use types::{BeamStep, DrawCommand};
