//! The library's error type. Every fallible operation in this crate
//! reports one of these kinds; the surrounding process maps them to exit
//! codes.

use vstd::prelude::*;

verus! {

/// What went wrong. `System` carries the raw OS errno value.
#[derive(Debug, Clone, Copy, PartialEq, Eq, Structural)]
pub enum ErrorKind {
    UidSet,
    EuidSet,
    GidSet,
    InvalidString,
    DoesNotExist,
    Exec,
    Env,
    NoUser,
    System(i32),
}

impl ErrorKind {
    /// A short stable tag for each kind, for messages.
    pub fn as_str(&self) -> (r: &'static str)
        ensures
            r@ == self.tag(),
    {
        match self {
            ErrorKind::UidSet => "UID_SET",
            ErrorKind::EuidSet => "EUID_SET",
            ErrorKind::GidSet => "GID_SET",
            ErrorKind::InvalidString => "INVALID_STRING",
            ErrorKind::DoesNotExist => "DOES_NOT_EXIST",
            ErrorKind::Exec => "EXEC",
            ErrorKind::Env => "ENV",
            ErrorKind::NoUser => "NO_USER",
            ErrorKind::System(_) => "SYSTEM",
        }
    }

    /// The tag `as_str` returns for each kind.
    pub open spec fn tag(&self) -> Seq<char> {
        match self {
            ErrorKind::UidSet => "UID_SET"@,
            ErrorKind::EuidSet => "EUID_SET"@,
            ErrorKind::GidSet => "GID_SET"@,
            ErrorKind::InvalidString => "INVALID_STRING"@,
            ErrorKind::DoesNotExist => "DOES_NOT_EXIST"@,
            ErrorKind::Exec => "EXEC"@,
            ErrorKind::Env => "ENV"@,
            ErrorKind::NoUser => "NO_USER"@,
            ErrorKind::System(_) => "SYSTEM"@,
        }
    }
}

/// An error: a kind plus a human-readable message.
#[derive(Debug, Clone)]
pub struct Error {
    pub kind: ErrorKind,
    pub message: String,
}

impl Error {
    pub fn new(kind: ErrorKind, message: &str) -> (r: Self)
        ensures
            r.kind == kind,
            r.message@ == message@,
    {
        Error { kind, message: String::from_str(message) }
    }
}

} // verus!
