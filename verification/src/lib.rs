//! Search-query construction, ranking decisions and wire shapes for a job
//! search service over the open-jobs dataset.

pub mod text;
pub mod order;
pub mod store;
pub mod rank;
pub mod pairwise;
pub mod gemini;
pub mod embed;
pub mod taste;
pub mod scout;
pub mod dto;
pub mod config;
pub mod placeholders;
