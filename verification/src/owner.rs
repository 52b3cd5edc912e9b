//! Owner strings: the resolution of a numeric owner id to a display
//! name, with a fixed sentinel when no name can be found.

use vstd::prelude::*;

verus! {

/// The sentinel shown when an owner id cannot be resolved.
pub open spec fn owner_sentinel() -> Seq<char> {
    "User error"@
}

/// Derive the owner field from the outcome of an identity lookup: the
/// resolved name when there is one, the fixed sentinel otherwise.
pub fn owner_display(resolved: Option<String>) -> (r: String)
    ensures
        resolved matches Some(n) ==> r@ == n@,
        resolved is None ==> r@ == owner_sentinel(),
{
    match resolved {
        Some(n) => n,
        None => String::from_str("User error"),
    }
}

/// The sentinel is a fixed, never-empty string: an unresolvable id can
/// never produce an empty owner field.
pub proof fn lemma_owner_sentinel_nonempty()
    ensures
        owner_sentinel().len() > 0,
{
    reveal_strlit("User error");
}

/// Relies on nix's `User::from_uid`, the system user database lookup.
/// The name found depends on the machine's database, so nothing is
/// promised of the outcome.
#[verifier::external_body]
fn lookup_user_name(uid: u32) -> Option<String> {
    match nix::unistd::User::from_uid(nix::unistd::Uid::from_raw(uid)) {
        Ok(Some(user)) => Some(user.name),
        _ => None,
    }
}

/// Resolve a numeric owner id against the system user database and
/// derive the owner field. The outcome of the lookup depends on the
/// machine, so no more is stated here than `owner_display` guarantees
/// of every outcome: the field is the looked-up name when one was
/// found, and the fixed sentinel when the lookup found none or failed.
pub fn uid_to_string(uid: u32) -> String {
    let resolved = lookup_user_name(uid);
    owner_display(resolved)
}

} // verus!
