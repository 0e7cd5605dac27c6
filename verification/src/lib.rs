//! The playing queue, the XSPF playlist model and the small decisions of a
//! desktop music player, with their contracts.
pub mod catalog;
pub mod clock;
pub mod laws;
pub mod media;
pub mod queue;
pub mod rate_limit;
pub mod text;
pub mod xspf;
