//! A snake game on a wrapping grid, flat or in three dimensions, as a state
//! machine that a front end drives tick by tick.

pub mod event;
pub mod game;
pub mod grid;
pub mod orientation;
pub mod paint;
pub mod planar;
pub mod projection;
pub mod render;
pub mod spatial;
