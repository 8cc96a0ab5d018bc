//! Detection of the AVX and AVX2 vector extensions of the executing processor.
//!
//! [`report`] holds the decoded flags of an identification leaf and the rule
//! that combines two leaves into one verdict. [`probe`] asks the processor
//! and applies that rule.

pub mod probe;
pub mod report;

pub use probe::has_avx_support;
pub use report::{supports_avx_and_avx2, FeatureReport};
