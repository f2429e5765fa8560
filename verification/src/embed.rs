//! Configuration of the query-embedding client used by semantic search. The
//! HTTP exchange happens outside this library.

use vstd::prelude::*;
use vstd::string::*;
use crate::gemini::{base_url_text, configured_base_url};
use crate::text::{is_blank, trim_of};

verus! {

/// OpenAI's embeddings base URL.
pub const DEFAULT_BASE_URL: &'static str = "https://api.openai.com/v1";

/// The embedding model matching the dataset's vectors.
pub const DEFAULT_MODEL: &'static str = "text-embedding-3-small";

/// The base URL of the embeddings client for a configured value: the default
/// when blank, otherwise without trailing slashes.
pub fn base_url(configured: &str) -> (r: String)
    ensures
        r@ == base_url_text(configured@, DEFAULT_BASE_URL@),
{
    configured_base_url(configured, DEFAULT_BASE_URL)
}

/// The embedding model for a configured value: the default when blank,
/// otherwise the value as given.
pub fn model(configured: String) -> (r: String)
    ensures
        r@ == if trim_of(configured@).len() == 0 {
            DEFAULT_MODEL@
        } else {
            configured@
        },
{
    if is_blank(configured.as_str()) {
        String::from_str(DEFAULT_MODEL)
    } else {
        configured
    }
}

} // verus!
