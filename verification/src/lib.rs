//! Verified core of a browser-driven page renderer: a remote-debugging
//! protocol client (JSON-RPC over a text transport), a single-worker render
//! pipeline with a kill-and-retry recovery policy, a multipart web-archive
//! rewriter, and a small HTML metadata extractor.

use vstd::prelude::*;

pub mod archive;
pub mod hashing;
pub mod json;
pub mod meta;
pub mod pipeline;
pub mod protocol;
pub mod slack;
pub mod strutil;

verus! {

/// Number of times one render job is attempted before its last error is
/// surfaced to the requester.
pub const RETRY_COUNT: u32 = 3;

/// Fixed delay, in seconds, between two attempts of the same job.
pub const RETRY_DELAY_SECONDS: u64 = 5;

/// Fixed settle time, in seconds, after a navigation: the remote protocol
/// offers no reliable load-complete signal in this design, so a wait stands
/// in for one.
pub const NAVIGATE_SETTLE_SECONDS: u64 = 5;

/// Fixed settle time, in seconds, after a script evaluation.
pub const SCRIPT_SETTLE_SECONDS: u64 = 3;

} // verus!
