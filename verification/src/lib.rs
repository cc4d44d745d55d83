//! nanostat compares sets of numeric measurements using a two-tailed Welch
//! style t-test at a fixed set of confidence levels.
//!
//! The engine works on exact integer and rational arithmetic: samples are
//! integer measurements (in whatever unit the caller chose), summaries keep
//! the exact first two moments, and the comparison decides significance by
//! comparing exact rational quantities, with critical t-values drawn from an
//! embedded fixed-point table indexed by degrees of freedom and confidence
//! level. This is the table-based oracle strategy: it trades the continuous
//! p-value and power computations of a special-functions library for a fully
//! exact, dependency-free decision procedure.

pub mod arith;
pub mod confidence;
pub mod difference;
pub mod error;
pub mod laws;
pub mod ratio;
pub mod summary;
pub mod table;

pub use confidence::Confidence;
pub use difference::Difference;
pub use error::Error;
pub use ratio::Ratio;
pub use summary::Summary;
