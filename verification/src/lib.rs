//! Statistical decision gates of a two-class (spam vs ham) Bayesian message
//! classifier.
//!
//! The classifier turns a stream of weighted token evidence into a single
//! probability that a message is spam.  The floating-point statistics
//! (per-token shrinkage, Fisher's combined-probability test) live with the
//! caller that owns the token stream; this crate holds the integer-valued
//! parts of the pipeline and proves them correct: the admissibility gate on
//! training totals, the per-token occurrence-count gate, the feature-weight
//! calibration table, and the sufficiency gate on the number of informative
//! tokens.

pub mod classify;
pub mod evidence;
