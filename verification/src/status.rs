//! The status channel: where to ask for the status of a stream, and when a
//! status calls for locking the session.

use vstd::prelude::*;
use vstd::string::StringExecFns;

verus! {

/// The phase in which a score is a verdict on the user.
pub open spec fn verify_phase() -> Seq<char> {
    "verify"@
}

/// The URL of the status of one stream of one user: the base, the user and
/// the stream, joined by slashes.
pub open spec fn status_url_spec(base: Seq<char>, user_id: Seq<char>, stream_id: Seq<char>) -> Seq<
    char,
> {
    base + seq!['/'] + user_id + seq!['/'] + stream_id
}

/// Whether a status calls for locking the session: locking is enabled, the
/// phase is the verify phase, and the score is below the threshold.
pub open spec fn should_lock_spec(lock_enabled: bool, phase: Seq<char>, below_threshold: bool)
    -> bool {
    lock_enabled && phase == verify_phase() && below_threshold
}

/// The URL of the status of one stream of one user.
pub fn status_url(status_base_url: &str, user_id: &str, stream_id: &str) -> (url: String)
    ensures
        url@ == status_url_spec(status_base_url@, user_id@, stream_id@),
{
    proof {
        reveal_strlit("/");
        assert("/"@ =~= seq!['/']);
    }
    let mut url = String::from_str(status_base_url);
    url.append("/");
    url.append(user_id);
    url.append("/");
    url.append(stream_id);
    url
}

/// Whether a status calls for locking the session. `below_threshold` says
/// whether the score of the status is below the lock threshold.
pub fn should_lock(lock_enabled: bool, phase: &str, below_threshold: bool) -> (lock: bool)
    ensures
        lock == should_lock_spec(lock_enabled, phase@, below_threshold),
{
    if !lock_enabled || !below_threshold {
        return false;
    }
    let phase_text = String::from_str(phase);
    let verify = String::from_str("verify");
    phase_text == verify
}

} // verus!
