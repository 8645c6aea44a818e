//! The credential transition manager: a small state machine over the
//! process's effective uid. `elevate` raises the effective uid to root,
//! `restore` drops back to the original user, and `switch_final` makes
//! the irrevocable switch of the real identity to the target user just
//! before process replacement.

use vstd::prelude::*;
use crate::error::Error;
use crate::error::ErrorKind;

verus! {

/// Relies on nix::unistd::seteuid: asks the kernel to set the effective
/// uid; the kernel refuses unless the argument is the real or saved uid
/// or the process is privileged.
#[verifier::external_body]
fn sys_seteuid(uid: u32) -> (r: Result<(), Error>) {
    match nix::unistd::seteuid(nix::unistd::Uid::from_raw(uid)) {
        Ok(()) => Ok(()),
        Err(_) => Err(Error::new(ErrorKind::EuidSet, "Failed to set euid")),
    }
}

/// Relies on nix::unistd::setuid: asks the kernel to set the real uid
/// (for a privileged process this collapses real, effective and saved
/// uid to the argument).
#[verifier::external_body]
fn sys_setuid(uid: u32) -> (r: Result<(), Error>) {
    match nix::unistd::setuid(nix::unistd::Uid::from_raw(uid)) {
        Ok(()) => Ok(()),
        Err(_) => Err(Error::new(ErrorKind::UidSet, "Failed to set uid")),
    }
}

/// Relies on nix::unistd::setgid: asks the kernel to set the real gid.
#[verifier::external_body]
fn sys_setgid(gid: u32) -> (r: Result<(), Error>) {
    match nix::unistd::setgid(nix::unistd::Gid::from_raw(gid)) {
        Ok(()) => Ok(()),
        Err(_) => Err(Error::new(ErrorKind::GidSet, "Failed to set gid")),
    }
}

/// Where the manager stands: running as the original user, elevated to
/// root, or irrevocably switched to the target user.
#[derive(Debug, Clone, Copy, PartialEq, Eq, Structural)]
pub enum PrivMode {
    Unprivileged,
    Elevated,
    Switched,
}

/// The credential transition manager. It owns the process's privilege
/// state: every effective-uid change goes through its three operations.
#[derive(Debug, Clone)]
pub struct ElevatedContext {
    pub original: u32,
    pub mode: PrivMode,
}

impl ElevatedContext {
    /// A manager for a process whose real (original) uid is `original`,
    /// starting unprivileged.
    pub fn new(original: u32) -> (r: Self)
        ensures
            r.original == original,
            r.mode is Unprivileged,
    {
        ElevatedContext { original, mode: PrivMode::Unprivileged }
    }

    pub open spec fn is_elevated(&self) -> bool {
        self.mode is Elevated
    }

    /// Raises the effective uid to root. A no-op when already elevated;
    /// on kernel refusal (the saved uid no longer holds root — the
    /// binary lost its setuid bit) the state is unchanged and the error
    /// reported.
    pub fn elevate(&mut self) -> (r: Result<(), Error>)
        requires
            !(old(self).mode is Switched),
        ensures
            elevate_transition(*old(self), *final(self), r),
    {
        if matches!(self.mode, PrivMode::Elevated) {
            return Ok(());
        }
        match sys_seteuid(0) {
            Ok(_) => {
                self.mode = PrivMode::Elevated;
                Ok(())
            },
            Err(_) => Err(Error::new(ErrorKind::EuidSet, "Failed to set euid")),
        }
    }

    /// Drops the effective uid back to the original user. A no-op that
    /// never errs when not elevated; on kernel refusal the state keeps
    /// claiming elevation and the error is reported.
    pub fn restore(&mut self) -> (r: Result<(), Error>)
        ensures
            restore_transition(*old(self), *final(self), r),
    {
        if !matches!(self.mode, PrivMode::Elevated) {
            return Ok(());
        }
        match sys_seteuid(self.original) {
            Ok(_) => {
                self.mode = PrivMode::Unprivileged;
                Ok(())
            },
            Err(_) => Err(Error::new(ErrorKind::EuidSet, "Failed to set euid")),
        }
    }

    /// The irrevocable final transition: elevates, then sets the real
    /// gid and uid to the target's, which under Unix collapses effective
    /// and saved ids too. After success `restore` is meaningless; the
    /// process has become the target user.
    pub fn switch_final(&mut self, target_uid: u32, target_gid: u32) -> (r: Result<(), Error>)
        requires
            !(old(self).mode is Switched),
        ensures
            final(self).original == old(self).original,
            r is Ok ==> final(self).mode is Switched,
            r matches Err(e) ==> (e.kind is EuidSet || e.kind is GidSet || e.kind is UidSet),
    {
        match self.elevate() {
            Ok(_) => {},
            Err(e) => {
                return Err(e);
            },
        }
        match sys_setgid(target_gid) {
            Ok(_) => {},
            Err(_) => {
                return Err(Error::new(ErrorKind::GidSet, "Failed to set gid"));
            },
        }
        match sys_setuid(target_uid) {
            Ok(_) => {},
            Err(_) => {
                return Err(Error::new(ErrorKind::UidSet, "Failed to set uid"));
            },
        }
        self.mode = PrivMode::Switched;
        Ok(())
    }
}

/// Law: restoring when not elevated is a no-op and never errs.
pub proof fn lemma_restore_unelevated_noop(
    pre: ElevatedContext,
    post: ElevatedContext,
    r: Result<(), Error>,
)
    requires
        !(pre.mode is Elevated),
        restore_transition(pre, post, r),
    ensures
        post == pre,
        r is Ok,
{
}

/// Law: after a successful elevation, a second elevation succeeds and
/// changes nothing — elevating twice is elevating once.
pub proof fn lemma_elevate_idempotent(
    c0: ElevatedContext,
    c1: ElevatedContext,
    c2: ElevatedContext,
    r1: Result<(), Error>,
    r2: Result<(), Error>,
)
    requires
        !(c0.mode is Switched),
        elevate_transition(c0, c1, r1),
        r1 is Ok,
        elevate_transition(c1, c2, r2),
    ensures
        r2 is Ok,
        c2 == c1,
{
}

/// The state relation `restore` establishes, as its contract states it.
pub open spec fn restore_transition(
    pre: ElevatedContext,
    post: ElevatedContext,
    r: Result<(), Error>,
) -> bool {
    &&& post.original == pre.original
    &&& (!(pre.mode is Elevated) ==> r is Ok && post == pre)
    &&& (pre.mode is Elevated ==> match r {
        Ok(_) => post.mode is Unprivileged,
        Err(e) => post == pre && e.kind is EuidSet,
    })
}

/// The state relation `elevate` establishes, as its contract states it.
pub open spec fn elevate_transition(
    pre: ElevatedContext,
    post: ElevatedContext,
    r: Result<(), Error>,
) -> bool {
    &&& post.original == pre.original
    &&& (pre.mode is Elevated ==> r is Ok && post == pre)
    &&& (pre.mode is Unprivileged ==> match r {
        Ok(_) => post.mode is Elevated,
        Err(e) => post == pre && e.kind is EuidSet,
    })
}

} // verus!
