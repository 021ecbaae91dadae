//! Batch email deliverability verdicts: a verified orchestration core.
//!
//! The crate classifies deliverability signals into a five-way verdict,
//! memoizes mail-exchanger lookups and final verdicts in two explicit
//! caches, bounds retries on ambiguous outcomes, and assembles ordered
//! batch results with aggregate statistics.  Network steps (DNS, SMTP)
//! are performed by the caller, which feeds their outcomes back into the
//! pipeline state machine.

pub mod assoc;
pub mod batch;
pub mod mx_cache;
pub mod outside;
pub mod pipeline;
pub mod request;
pub mod response;
pub mod result_cache;
pub mod verdict;
