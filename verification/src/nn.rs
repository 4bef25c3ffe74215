//! Deep Q-learning: parameters, replay memory, policy and the training tick.

pub mod params;
pub mod replay;
pub mod observe;
pub mod util;
pub mod dqn_bevy;
pub mod dqn;
