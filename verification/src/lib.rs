//! A multi-period leaderboard engine.
//!
//! For every score type the engine keeps six time-windowed rankings: daily,
//! weekly, monthly, seasonally, yearly and all-time.  A ranking is a sorted
//! set in a cache, backed by a log that holds one record for every player
//! and day, from which the ranking can be rebuilt at any time.
//!
//! - [`gregorian`], [`datetime`], [`season`] and [`period`] hold the calendar:
//!   instants at the fixed offset UTC-04:00, and the buckets of each period.
//! - [`score_type`] names what is counted and how values are merged.
//! - [`cache`] (with [`ranking`]) and [`log`] (with [`entry`]) are the two
//!   stores, held in memory.
//! - [`engine`] is the engine of one score type, with [`metadata`],
//!   [`standings`] and [`line`]; [`registry`] holds the engines of all score
//!   types, and [`listener`] turns the events of a match into updates.
//! - [`laws`] states what holds of the engine whatever the updates.
//! - [`leaderboard`] keeps rankings under the names of their buckets.
//! - [`achievement`], [`ip_identity`], [`migration`], [`matches`],
//!   [`player_update`] and [`validation`] hold the records around them.

pub mod achievement;
pub mod cache;
pub mod datetime;
pub mod engine;
pub mod entry;
pub mod gregorian;
pub mod ip_identity;
pub mod laws;
pub mod leaderboard;
pub mod line;
pub mod listener;
pub mod log;
pub mod matches;
pub mod metadata;
pub mod migration;
pub mod period;
pub mod player_update;
pub mod ranking;
pub mod registry;
pub mod score_type;
pub mod season;
pub mod standings;
pub mod text;
pub mod validation;
