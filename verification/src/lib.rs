//! The simulation core of an arcade game: a ship, a field of drifting rocks
//! that break up when shot, and the shots themselves, advanced tick by tick.
//!
//! All quantities are integers in fixed point, a thousand steps to the pixel
//! and to the radian, so that every operation is exact and every contract
//! can say precisely what comes out. Randomness comes from a generator that
//! the caller owns and hands in; time comes in as milliseconds of a clock
//! that the caller reads.
pub mod units;
pub mod angle;
pub mod chance;
pub mod geometry;
pub mod motion;
pub mod entity;
pub mod player;
pub mod spawn;
pub mod engine;
pub mod world;
