//! Requests that are passed through as they are: embeddings and rankings.
use vstd::prelude::*;
use vstd::string::*;
use crate::text::{contains, holds};
use crate::usage::UsageTokens;

verus! {

/// The category of a request by its path.
pub fn infer_category(path: &str) -> (r: &'static str)
    ensures
        r@ == if holds(path@, "rerank"@) {
            "排序"@
        } else {
            "向量"@
        },
{
    if contains(path, "rerank") {
        "排序"
    } else {
        "向量"
    }
}

/// All tokens that are counted apart.
pub open spec fn counted(u: UsageTokens) -> int {
    u.prompt + u.completion + u.image_tokens
}

/// Whether a usage can be counted in its own number type.
pub open spec fn countable(u: UsageTokens) -> bool {
    &&& i32::MIN <= u.prompt + u.completion <= i32::MAX
    &&& i32::MIN <= counted(u) <= i32::MAX
    &&& i32::MIN <= u.total - u.completion <= i32::MAX
    &&& i32::MIN <= u.total - u.completion - u.image_tokens <= i32::MAX
}

/// A usage whose total is covered: tokens that only the total counts are taken
/// as input.
pub open spec fn covering(u: UsageTokens) -> UsageTokens {
    if u.total > 0 && u.total > counted(u) {
        UsageTokens { prompt: (u.total - u.completion - u.image_tokens) as i32, ..u }
    } else {
        u
    }
}

/// Takes tokens that only the total counts as input.
pub fn cover_total(u: UsageTokens) -> (r: UsageTokens)
    requires
        countable(u),
    ensures
        r == covering(u),
{
    let mut out = u;
    if u.total > 0 && u.total > u.prompt + u.completion + u.image_tokens {
        out.prompt = u.total - u.completion - u.image_tokens;
    }
    out
}

/// A positive total is billed in full: no more tokens are named than are
/// counted apart. Nothing else of the usage changes.
pub proof fn law_total_is_covered(u: UsageTokens)
    requires
        countable(u),
    ensures
        u.total > 0 ==> covering(u).total <= counted(covering(u)),
        u.total > 0 && u.total > counted(u) ==> counted(covering(u)) == u.total,
        covering(u).prompt >= u.prompt,
        covering(u) == (UsageTokens { prompt: covering(u).prompt, ..u }),
{
}

} // verus!
