//! A timed quiz round: questions fall on a schedule, the player types the
//! answers, and a score is kept until it leaves the configured bounds.

pub mod score;
pub mod timer;
pub mod question;
pub mod registry;
pub mod input;
pub mod state;
pub mod session;
