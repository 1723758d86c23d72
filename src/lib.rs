//! Content-addressed download engine for model files: a streaming content
//! hasher, a retry policy with exponential backoff, a durable cache of the
//! locations that hold each content hash, and a per-file orchestrator that
//! decides between reusing a cached copy and downloading, verifies what was
//! written and records it.
use vstd::prelude::*;

pub mod cache;
pub mod catalog;
pub mod configuration;
pub mod hash;
pub mod orchestrator;
pub mod record;
pub mod retry;
pub mod text;
pub mod transfer;
pub mod utils;

verus! {

} // verus!
