use vstd::prelude::*;

verus! {

/// `chrono::Utc::now().timestamp()`: the seconds since the Unix epoch on this
/// machine's clock. Nothing is claimed of the number.
#[verifier::external_body]
pub(crate) fn now_utc_seconds() -> u64 {
    chrono::Utc::now().timestamp() as u64
}

} // verus!
