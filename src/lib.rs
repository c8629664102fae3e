//! Rank bookkeeping for a roster of group members: the rank ladder, the
//! promotion engine, the reconciler that merges what the group service
//! reports into a roster record, the retry queue for failed rank changes and
//! the membership sweep over the roster.
pub mod ranks;
pub mod users;
pub mod promotion;
pub mod reconcile;
pub mod keyed;
pub mod retry_queue;
pub mod membership;
pub mod roblox;
pub mod leaderboard;
pub mod verification;
pub mod key_generation;
