//! A minimal real-time pixel generator, host side.
//!
//! One color cell is computed per output pixel, the cells are copied into a
//! surface image, and a single angle parameter is steered from the keyboard.
//! Everything that decides or computes lives here and is verified; talking
//! to the window system and to the GPU is left to the program around it.

pub mod bridge;
pub mod compute;
pub mod controller;
pub mod frame;
pub mod grid;
pub mod params;
pub mod resources;
