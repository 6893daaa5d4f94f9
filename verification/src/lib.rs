//! A bouncing donut sprite: fixed-point motion inside a playfield, a ring of
//! evenly spaced, randomly colored sprinkles, and the shape list that a
//! renderer draws each frame.

pub mod sprite;
pub mod trig;
mod rng;
