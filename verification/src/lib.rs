//! Streaming detection of bursts in edge streams.
//!
//! Events arrive as a key and a time bucket (a *tick*). For each event the
//! caller keeps two approximate frequency counts of the key: one over the
//! current tick and one over the whole stream. This crate decides when the
//! current-tick counts are to be reset and turns the counts into an anomaly
//! score, held exactly as a ratio of integers.
//!
//! - [`window`]: the tick of a stream and the rollover rule.
//! - [`score`]: the burst statistic on a pair of counts.
//! - [`ratio`]: the ratios that scores are, and their checked arithmetic.
//! - [`normal_core`]: the scorer of single keys.
//! - [`relational_midas`]: the scorer of edges, by source, destination and
//!   pair.
//! - [`parse_evtx`]: logins out of event records, as keys and times.

pub mod ratio;
pub mod window;
pub mod score;
pub mod normal_core;
pub mod relational_midas;
pub mod parse_evtx;
