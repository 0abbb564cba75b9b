//! Game logic of "Drink Up!": a bottle drains over time, letters fall down the
//! screen, and pressing a letter's key while it crosses the hit zone refills the
//! bottle.
//!
//! All quantities are integers. Time is measured in microseconds, positions and
//! water levels in micro-pixels (see [`letter::UNITS_PER_PIXEL`]), and speeds in
//! micro-pixels per microsecond, which is the same as pixels per second.

pub mod timer;
pub mod letter;
pub mod spawn;
pub mod game;
