//! A deviation-based time-series compression library.
//!
//! A [`Series`] accepts a monotonically increasing stream of (index, value)
//! samples and stores only a compact sequence of representative entries.
//! Consecutive samples that stay within a configured deviation threshold of
//! the representative value of the current run are merged into a single
//! entry spanning a growing time range; a sample that deviates too much
//! starts a new entry. The number of stored entries is bounded by a
//! compile-time capacity, and a full series rejects further samples.
//!
//! Every operation carries a contract: appends are proved to keep the
//! entries strictly chronologically ordered and within capacity, rejected
//! appends are proved to leave the series untouched, and merges are proved
//! to keep the representative value with which the run began.

pub mod deviate;
pub mod order;
pub mod range;
pub mod series;

pub use deviate::Deviate;
pub use range::Range;
pub use series::SerieEntry;
pub use series::Series;
