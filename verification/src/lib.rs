//! Verified core of a daemon that logs the user out during configured off hours,
//! after showing an advance warning.

pub mod cli;
pub mod clock;
pub mod config;
pub mod daemon;
pub mod duration;
pub mod notify;
pub mod numeral;
pub mod scheduler;
pub mod text;
