//! Report builders that lay out leaderboard tables for display.

pub mod sruc;
