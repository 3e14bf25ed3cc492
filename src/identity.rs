//! The identity (user id, group id, login name) that a generated container
//! reproduces for its user.
use vstd::prelude::*;

verus! {

/// Login name used when the current user's name cannot be found or decoded.
pub const UNKNOWN_USER: &'static str = "unknown_user";

/// A numeric user id, group id and login name.
pub struct Identity {
    pub uid: u32,
    pub gid: u32,
    pub user: String,
}

/// The login name kept from a lookup: the name found, else the fallback.
pub open spec fn user_or_fallback(found: Option<Seq<char>>) -> Seq<char> {
    match found {
        Some(name) => name,
        None => UNKNOWN_USER@,
    }
}

/// Relies on users::get_current_uid: the real user id of this process.
#[verifier::external_body]
fn current_uid() -> (r: u32) {
    users::get_current_uid()
}

/// Relies on users::get_current_gid: the real group id of this process.
#[verifier::external_body]
fn current_gid() -> (r: u32) {
    users::get_current_gid()
}

/// Relies on users::get_current_username: the login name of the user running
/// this process, `None` where the user database has no entry for it or the
/// name is not valid UTF-8.
#[verifier::external_body]
fn current_username() -> (r: Option<String>) {
    match users::get_current_username() {
        Some(name) => name.into_string().ok(),
        None => None,
    }
}

/// Builds an identity from what the host reported; a missing name becomes
/// `unknown_user`.
pub fn identity_from(uid: u32, gid: u32, user: Option<String>) -> (r: Identity)
    ensures
        r.uid == uid,
        r.gid == gid,
        r.user@ == user_or_fallback(
            match user {
                Some(s) => Some(s@),
                None => None,
            },
        ),
{
    let name = match user {
        Some(s) => s,
        None => String::from_str(UNKNOWN_USER),
    };
    Identity { uid, gid, user: name }
}

/// The identity of the user running this process. Never fails: a name that
/// cannot be looked up is replaced by `unknown_user`.
/// What the host reports may differ from one call to the next, so nothing
/// more is promised of the result; `identity_from` states how it is formed.
pub fn current_identity() -> (r: Identity) {
    let uid = current_uid();
    let gid = current_gid();
    let user = current_username();
    identity_from(uid, gid, user)
}

} // verus!
