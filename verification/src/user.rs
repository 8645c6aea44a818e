//! The identity resolver: canonical user records, resolved from the OS
//! identity database through trusted lookups.

use vstd::prelude::*;
use crate::text::str_eq;

verus! {

/// A resolved user: what the rest of the library reads of an OS user
/// record. Immutable once resolved.
#[derive(Debug, Clone)]
pub struct UserIdentity {
    pub name: String,
    pub uid: u32,
    pub primary_gid: u32,
    pub home: String,
    pub shell: String,
}

/// Relies on nix::unistd::User::from_name (getpwnam_r): returns the user
/// database entry whose name matches the query, or `None` when there is
/// none (lookup errors are folded into `None`, as callers treat both the
/// same).
#[verifier::external_body]
fn lookup_user_by_name(name: &str) -> (r: Option<UserIdentity>)
    ensures
        r matches Some(u) ==> u.name@ == name@,
{
    match nix::unistd::User::from_name(name) {
        Ok(Some(u)) => Some(UserIdentity {
            name: u.name,
            uid: u.uid.as_raw(),
            primary_gid: u.gid.as_raw(),
            home: u.dir.to_string_lossy().to_string(),
            shell: u.shell.to_string_lossy().to_string(),
        }),
        _ => None,
    }
}

/// Relies on nix::unistd::User::from_uid (getpwuid_r): returns the user
/// database entry whose uid matches the query, or `None` when there is
/// none (lookup errors are folded into `None`).
#[verifier::external_body]
fn lookup_user_by_uid(uid: u32) -> (r: Option<UserIdentity>)
    ensures
        r matches Some(u) ==> u.uid == uid,
{
    match nix::unistd::User::from_uid(nix::unistd::Uid::from_raw(uid)) {
        Ok(Some(u)) => Some(UserIdentity {
            name: u.name,
            uid: u.uid.as_raw(),
            primary_gid: u.gid.as_raw(),
            home: u.dir.to_string_lossy().to_string(),
            shell: u.shell.to_string_lossy().to_string(),
        }),
        _ => None,
    }
}

/// Resolves a user by uid.
pub fn get_user_by_id(uid: u32) -> (r: Option<UserIdentity>)
    ensures
        r matches Some(u) ==> u.uid == uid,
{
    lookup_user_by_uid(uid)
}

/// Resolves the root identity: preferentially the user named "root", and
/// otherwise whatever user has uid 0 (on BSDs that may be "toor"). `None`
/// only when the identity database has neither entry — a defined failure,
/// not a panic.
pub fn get_root_user() -> (r: Option<UserIdentity>)
    ensures
        r matches Some(u) ==> (u.name@ == "root"@ || u.uid == 0),
{
    match lookup_user_by_name("root") {
        Some(u) => Some(u),
        None => lookup_user_by_uid(0),
    }
}

/// Resolves a user by name; the literal name "root" goes through the
/// root-specific lookup with its uid-0 fallback.
pub fn get_user(name: &str) -> (r: Option<UserIdentity>)
    ensures
        r matches Some(u) ==> (u.name@ == name@ || (name@ == "root"@ && u.uid == 0)),
{
    if str_eq(name, "root") {
        get_root_user()
    } else {
        lookup_user_by_name(name)
    }
}

} // verus!
