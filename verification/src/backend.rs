//! An in-memory model of a Unix process's credentials. It implements the
//! same uid/gid transition rules the kernel enforces (saved-set ids,
//! root override), so the privilege state machine can be exercised and
//! its laws checked without root privileges or a real system.

use vstd::prelude::*;
use crate::error::Error;
use crate::error::ErrorKind;

verus! {

/// A simulated process credential set: real, effective and saved uid and
/// gid, plus the original (invoking) and target uid the tool runs with.
#[derive(Debug, Clone, Copy, PartialEq, Eq, Structural)]
pub struct TestBackend {
    pub uid: u32,
    pub euid: u32,
    pub suid: u32,
    pub gid: u32,
    pub egid: u32,
    pub sgid: u32,
    pub original: u32,
    pub target: u32,
}

/// The credentials a setuid-root binary starts with: an unprivileged
/// real identity, root effective and saved uid.
pub open spec fn initial_backend() -> TestBackend {
    TestBackend { uid: 512, euid: 0, suid: 0, gid: 512, egid: 512, sgid: 512, original: 512, target: 0 }
}

impl Default for TestBackend {
    /// An unprivileged user (uid 512) running the tool with the setuid
    /// bit in effect, targeting root.
    fn default() -> (r: Self)
        ensures
            r == initial_backend(),
    {
        TestBackend {
            uid: 512,
            euid: 0,
            suid: 0,
            gid: 512,
            egid: 512,
            sgid: 512,
            original: 512,
            target: 0,
        }
    }
}

impl TestBackend {
    /// Effectively root: the real or the effective uid is 0.
    pub open spec fn spec_is_root(&self) -> bool {
        self.uid == 0 || self.euid == 0
    }

    /// Whether `seteuid(uid)` would be permitted: the uid is the saved
    /// or real uid, or the process is root.
    pub open spec fn may_seteuid(&self, uid: u32) -> bool {
        self.suid == uid || self.uid == uid || self.spec_is_root()
    }

    /// Whether `setuid(uid)` would be permitted.
    pub open spec fn may_setuid(&self, uid: u32) -> bool {
        self.suid == uid || self.uid == uid || self.spec_is_root()
    }

    pub fn getuid(&self) -> (r: u32)
        ensures
            r == self.uid,
    {
        self.uid
    }

    pub fn geteuid(&self) -> (r: u32)
        ensures
            r == self.euid,
    {
        self.euid
    }

    pub fn getgid(&self) -> (r: u32)
        ensures
            r == self.gid,
    {
        self.gid
    }

    pub fn is_root(&self) -> (r: bool)
        ensures
            r == self.spec_is_root(),
    {
        self.uid == 0 || self.euid == 0
    }

    /// Sets the effective uid, saving the previous effective uid in the
    /// saved slot; refused unless the uid is the saved or real uid or
    /// the process is root.
    pub fn seteuid(&mut self, uid: u32) -> (r: Result<(), Error>)
        ensures
            old(self).may_seteuid(uid) ==> r is Ok && *final(self) == (TestBackend {
                suid: old(self).euid,
                euid: uid,
                ..*old(self)
            }),
            !old(self).may_seteuid(uid) ==> (r matches Err(e) && e.kind is EuidSet && *final(self)
                == *old(self)),
    {
        if self.suid == uid || self.uid == uid || self.is_root() {
            self.suid = self.euid;
            self.euid = uid;
            Ok(())
        } else {
            Err(Error::new(ErrorKind::EuidSet, "EUID not present in UID or SUID, process is not root"))
        }
    }

    /// Sets the real uid, which also collapses the effective and saved
    /// uids to it; refused unless the uid is the saved or real uid or
    /// the process is root.
    pub fn setuid(&mut self, uid: u32) -> (r: Result<(), Error>)
        ensures
            old(self).may_setuid(uid) ==> r is Ok && *final(self) == (TestBackend {
                uid,
                euid: uid,
                suid: uid,
                ..*old(self)
            }),
            !old(self).may_setuid(uid) ==> (r matches Err(e) && e.kind is UidSet && *final(self)
                == *old(self)),
    {
        if uid != self.suid && uid != self.uid && !self.is_root() {
            return Err(Error::new(ErrorKind::UidSet, "UID does not match SUID, and EUID is not root"));
        }
        self.uid = uid;
        self.euid = uid;
        self.suid = uid;
        Ok(())
    }

    /// Sets the real gid; refused unless the gid is the real or saved
    /// gid or the process is root.
    pub fn setgid(&mut self, gid: u32) -> (r: Result<(), Error>)
        ensures
            (old(self).gid == gid || old(self).sgid == gid || old(self).spec_is_root()) ==> r is Ok
                && *final(self) == (TestBackend { gid, ..*old(self) }),
            !(old(self).gid == gid || old(self).sgid == gid || old(self).spec_is_root()) ==> (
            r matches Err(e) && e.kind is GidSet && *final(self) == *old(self)),
    {
        if self.gid == gid || self.sgid == gid || self.is_root() {
            self.gid = gid;
            Ok(())
        } else {
            Err(Error::new(ErrorKind::GidSet, "GID not present in GID or SGID, process is not root"))
        }
    }

    /// Elevate to root for privileged operations.
    pub fn elevate(&mut self) -> (r: Result<(), Error>)
        ensures
            old(self).may_seteuid(0) ==> r is Ok && *final(self) == (TestBackend {
                suid: old(self).euid,
                euid: 0,
                ..*old(self)
            }),
            !old(self).may_seteuid(0) ==> r is Err && *final(self) == *old(self),
    {
        self.seteuid(0)
    }

    /// Restore to the original user.
    pub fn restore(&mut self) -> (r: Result<(), Error>)
        ensures
            old(self).may_seteuid(old(self).original) ==> r is Ok && *final(self) == (TestBackend {
                suid: old(self).euid,
                euid: old(self).original,
                ..*old(self)
            }),
            !old(self).may_seteuid(old(self).original) ==> r is Err && *final(self) == *old(self),
    {
        let original = self.original;
        self.seteuid(original)
    }

    /// The final switch to the target user: elevate, then set the real
    /// uid, after which no privileged identity remains to return to.
    pub fn switch_final(&mut self) -> (r: Result<(), Error>)
        ensures
            old(self).may_seteuid(0) ==> r is Ok && *final(self) == (TestBackend {
                uid: old(self).target,
                euid: old(self).target,
                suid: old(self).target,
                ..*old(self)
            }),
            !old(self).may_seteuid(0) ==> r is Err && *final(self) == *old(self),
    {
        match self.elevate() {
            Ok(_) => {},
            Err(e) => {
                return Err(e);
            },
        }
        let target = self.target;
        self.setuid(target)
    }
}

} // verus!
