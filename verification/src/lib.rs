//! The learning core of a car-racing trainer: observations and rewards, a
//! ring replay buffer, epsilon-greedy action choice, and the per-tick
//! decisions of training and of the episode lifecycle.
//!
//! The library holds no floating-point number. Lengths, speeds, cosines,
//! rewards, action values and rates are fixed-point integers, in millionths
//! (see [`fixed::ONE`]); times are whole microseconds. The simulation and
//! the networks live with the caller, who converts at the border: the
//! library is told what the simulation reports and what the networks
//! score, and says what is to be stored, steered, trained and respawned.

pub mod car;
pub mod fixed;
pub mod nn;
