use vstd::prelude::*;

pub mod chunking;
pub mod tokenizer;
pub mod corpus;
pub mod prompts;
pub mod pipeline;
pub mod quota;
pub mod trigger;

verus! {

/// Largest number of tokens handed to one summarization request.
pub const CHUNK_BUDGET: usize = 2800;

/// Number of issues that one trigger summarizes before it stops.
pub const ISSUE_LIMIT: u64 = 10;

} // verus!
