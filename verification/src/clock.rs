//! The time and fresh ids, as the machine gives them.
use vstd::prelude::*;

verus! {

/// `chrono::Utc::now`, in seconds since the epoch. Nothing is claimed of it.
#[verifier::external_body]
pub(crate) fn now_seconds() -> (r: i64) {
    chrono::Utc::now().timestamp()
}

/// `chrono::Utc::now`, as a date such as 2024-01-31. Nothing is claimed of it.
#[verifier::external_body]
pub(crate) fn today() -> (r: String) {
    chrono::Utc::now().format("%Y-%m-%d").to_string()
}

/// `uuid::Uuid::new_v4`, as text. Nothing is claimed of it.
#[verifier::external_body]
pub(crate) fn fresh_id() -> (r: String) {
    uuid::Uuid::new_v4().to_string()
}

} // verus!
