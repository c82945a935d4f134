//! The decisions of a mining proxy's stream handler, verified.
pub mod hex;
pub mod frames;
pub mod worker;
pub mod protocol;
pub mod session;
pub mod interval;
pub mod laws;
