//! What is sent to the ledger and to the launcher when a memory is
//! created: for how long the launcher may draw the price, at what fee, and
//! how the new memory is described.
use vstd::prelude::*;
use vstd::string::*;

verus! {

/// How long an approval holds: ten minutes, in nanoseconds.
pub const APPROVAL_LIFETIME_NANOS: u64 = 600_000_000_000;

/// The fee that an approval offers to the ledger.
pub const APPROVAL_FEE: u64 = 100_000;

/// The storage that a new memory is deployed with.
pub const DEPLOY_CAPACITY: u64 = 1024;

/// The time an approval is made at and the time it expires, for an
/// approval made at `now`; none where the expiry is beyond the clock.
pub open spec fn approval_window_at(now: u64) -> Option<(u64, u64)> {
    if now + APPROVAL_LIFETIME_NANOS <= u64::MAX {
        Some((now, (now + APPROVAL_LIFETIME_NANOS) as u64))
    } else {
        None
    }
}

/// When an approval made at `now`, in nanoseconds since the epoch, is
/// made and when it expires.
pub fn approval_window(now: u64) -> (window: Option<(u64, u64)>)
    ensures
        window == approval_window_at(now),
{
    match now.checked_add(APPROVAL_LIFETIME_NANOS) {
        Some(expires_at) => Some((now, expires_at)),
        None => None,
    }
}

/// The description that the launcher is given of a new memory.
pub open spec fn deploy_description(name: Seq<char>, description: Seq<char>) -> Seq<char> {
    "{name: "@ + name + ", description: "@ + description + "}"@
}

/// Writes the description that the launcher is given of a new memory.
pub fn deploy_argument(name: &str, description: &str) -> (argument: String)
    ensures
        argument@ == deploy_description(name@, description@),
{
    let mut argument = String::new();
    argument.append("{name: ");
    argument.append(name);
    argument.append(", description: ");
    argument.append(description);
    argument.append("}");
    assert(argument@ =~= deploy_description(name@, description@));
    argument
}

} // verus!
