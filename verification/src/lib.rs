//! Time measurement and loop-rate governance: a monotonic [`Clock`] and a
//! [`RateLimiter`] that computes per-iteration delta time and wait durations
//! with lag/catchup bookkeeping.

pub mod clock;
pub mod duration;
pub mod limiter;

pub use clock::Clock;
pub use duration::Duration;
pub use limiter::RateLimiter;

