//! Gold and silver price cache with a fixed-delay refresh schedule.
//!
//! The crate holds the decisions of a small price exporter: what the cache contains
//! after each write, what the refresh loop does next, how the refresh interval is
//! read from its setting, how a feed response becomes a pair of prices, and how the
//! metric lines are laid out. Network, timers and number formatting are the caller's.
//!
//! - [`state`]: the cache itself, a pair of prices that is replaced as a whole.
//! - [`shared`]: the cache behind a reader-writer lock, for tasks that share it.
//! - [`refresher`]: the schedule of fetches and sleeps that keeps the cache fresh.
//! - [`config`]: the refresh interval and its default.
//! - [`client`]: the address of the feed and the reading of its answers.
//! - [`metrics`]: the text that is served.

pub mod client;
pub mod config;
pub mod metrics;
pub mod refresher;
pub mod shared;
pub mod state;
