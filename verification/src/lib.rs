//! Leaderboard engine for cooperative egg-farming challenges.
//!
//! The crate covers the wire codec for the game's API (base64 text, an
//! optional compressed envelope, and the binary message layer) and the
//! prediction and ranking engine that turns a decoded coop status plus its
//! contract's metadata into orderable leaderboard snapshots.

pub mod clock;
pub mod codec;
pub mod contracts;
pub mod coop_flag;
pub mod engine;
pub mod error;
pub mod maj_api;
pub mod maj_coop;
pub mod formatter;
pub mod model;
pub mod ranker;
pub mod report_generator;
pub mod requests;
pub mod wire;
