use vstd::prelude::*;

use rand::distributions::Alphanumeric;
use rand::{thread_rng, Rng};

verus! {

/// A character that may appear in a generated join code: an ASCII letter or digit.
pub open spec fn is_code_char(c: char) -> bool {
    ('a' <= c && c <= 'z') || ('A' <= c && c <= 'Z') || ('0' <= c && c <= '9')
}

/// Relies on rand's `Alphanumeric` distribution: every sampled byte is an
/// ASCII letter or digit, so sixteen samples give a sixteen-character
/// alphanumeric join code. Which code comes back is random, so nothing more
/// is promised.
#[verifier::external_body]
pub fn random_id() -> (r: String)
    ensures
        r@.len() == 16,
        forall|i: int| 0 <= i < 16 ==> is_code_char(#[trigger] r@[i]),
{
    thread_rng().sample_iter(&Alphanumeric).take(16).map(char::from).collect()
}

/// Relies on std's `SystemTime`: the wall clock as whole seconds since the
/// Unix epoch, or 0 if the clock reads earlier than the epoch. The result
/// depends on the machine's clock, so nothing is promised of it.
#[verifier::external_body]
pub fn current_time() -> (r: u64) {
    std::time::SystemTime::now()
        .duration_since(std::time::SystemTime::UNIX_EPOCH)
        .map(|d| d.as_secs())
        .unwrap_or(0)
}

} // verus!
