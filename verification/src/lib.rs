//! A setuid command-execution gate: authenticates the invoking user,
//! authorizes the requested action against a configured rule set, and
//! performs the privilege transitions needed to run a command as another
//! user. This crate holds the decision logic — rule matching, the
//! credential state machine, the session cache's validity rules, and the
//! login retry machine — with verified contracts; the surrounding process
//! (terminal prompts, PAM, the filesystem, fork/exec) hands it plain
//! values.

pub mod authenticate;
pub mod backend;
pub mod cache;
pub mod config;
pub mod elevate;
pub mod env;
pub mod error;
pub mod login;
pub mod output;
pub mod run;
pub mod text;
pub mod user;

use vstd::prelude::*;

verus! {

/// Process exit categories, kept distinct so scripts can tell a cache
/// failure from an authentication failure.
pub enum UdoReturn {
    NoError,
    GenericError,
    CacheFailure,
    ElevateFailure,
    AuthenticateFailure,
}

impl UdoReturn {
    /// The stable exit code for each category.
    pub fn code(&self) -> (r: i32)
        ensures
            r == match self {
                UdoReturn::NoError => 0i32,
                UdoReturn::GenericError => 1i32,
                UdoReturn::CacheFailure => 2i32,
                UdoReturn::ElevateFailure => 3i32,
                UdoReturn::AuthenticateFailure => 4i32,
            },
    {
        match self {
            UdoReturn::NoError => 0,
            UdoReturn::GenericError => 1,
            UdoReturn::CacheFailure => 2,
            UdoReturn::ElevateFailure => 3,
            UdoReturn::AuthenticateFailure => 4,
        }
    }
}

} // verus!
