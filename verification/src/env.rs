//! The sanitized environment handed to the target process: which
//! variables are set from the resolved identities, and which of the
//! caller's variables survive. The surrounding process applies the
//! result; this module only decides it.

use vstd::prelude::*;
use vstd::string::StringExecFns;
use crate::text::contains_string;
use crate::text::match_at;
use crate::text::matches_at;
use crate::text::str_eq;
use crate::user::UserIdentity;

verus! {

/// The variables set for the target process.
#[derive(Debug, Clone)]
pub struct Vars {
    pub home: String,
    pub user: String,
    pub logname: String,
    pub shell: String,
    pub path: Option<String>,
}

/// Option-of-String views agree.
pub open spec fn opt_string_eq(a: Option<String>, b: Option<String>) -> bool {
    match a {
        Option::Some(x) => b matches Option::Some(y) && x@ == y@,
        Option::None => b is None,
    }
}

fn clone_opt_string(o: &Option<String>) -> (r: Option<String>)
    ensures
        opt_string_eq(r, *o),
{
    match o {
        Option::Some(s) => Option::Some(s.clone()),
        Option::None => Option::None,
    }
}

impl Vars {
    /// The variables for a non-login run: the caller keeps its home and
    /// shell, while user and logname become the target's.
    pub fn non_login(user: &UserIdentity, do_as: &UserIdentity, safe_path: &Option<String>) -> (r:
        Self)
        ensures
            r.home@ == user.home@,
            r.user@ == do_as.name@,
            r.logname@ == do_as.name@,
            r.shell@ == user.shell@,
            opt_string_eq(r.path, *safe_path),
    {
        Vars {
            home: user.home.clone(),
            user: do_as.name.clone(),
            logname: do_as.name.clone(),
            shell: user.shell.clone(),
            path: clone_opt_string(safe_path),
        }
    }

    /// The variables for a login run: home, shell, user and logname all
    /// become the target's.
    pub fn login(do_as: &UserIdentity, safe_path: &Option<String>) -> (r: Self)
        ensures
            r.home@ == do_as.home@,
            r.user@ == do_as.name@,
            r.logname@ == do_as.name@,
            r.shell@ == do_as.shell@,
            opt_string_eq(r.path, *safe_path),
    {
        Vars {
            home: do_as.home.clone(),
            user: do_as.name.clone(),
            logname: do_as.name.clone(),
            shell: do_as.shell.clone(),
            path: clone_opt_string(safe_path),
        }
    }
}

/// The sanitized-environment policy for one run.
#[derive(Debug, Clone)]
pub struct Env {
    pub login: bool,
    pub preserve_all: bool,
    pub safe_vars: Vec<String>,
    pub set_vars: Vars,
    pub do_as_uid: u32,
    pub do_as_gid: u32,
}

/// The variables kept in every run.
pub open spec fn preserve_list_spec() -> Seq<Seq<char>> {
    seq!["TERM"@, "DISPLAY"@]
}

/// The additional variables kept when running a process (not a login
/// shell).
pub open spec fn safe_list_spec() -> Seq<Seq<char>> {
    seq!["XAUTHORITY"@, "LANG"@, "LANGUAGE"@, "EDITOR"@, "VISUAL"@, "PAGER"@]
}

/// The view of each string in a vector.
pub open spec fn views_of(v: Seq<String>) -> Seq<Seq<char>> {
    Seq::new(v.len(), |i: int| v[i]@)
}

fn preserve_vars_list() -> (r: Vec<String>)
    ensures
        views_of(r@) =~= preserve_list_spec(),
{
    let mut v: Vec<String> = Vec::new();
    v.push(String::from_str("TERM"));
    v.push(String::from_str("DISPLAY"));
    v
}

fn safe_vars_list() -> (r: Vec<String>)
    ensures
        views_of(r@) =~= safe_list_spec() + preserve_list_spec(),
{
    let mut v: Vec<String> = Vec::new();
    v.push(String::from_str("XAUTHORITY"));
    v.push(String::from_str("LANG"));
    v.push(String::from_str("LANGUAGE"));
    v.push(String::from_str("EDITOR"));
    v.push(String::from_str("VISUAL"));
    v.push(String::from_str("PAGER"));
    v.push(String::from_str("TERM"));
    v.push(String::from_str("DISPLAY"));
    v
}

impl Env {
    /// The policy for a login shell: only the always-preserved
    /// variables survive, and the target's home becomes the working
    /// directory.
    pub fn login_env(
        user: &UserIdentity,
        do_as: &UserIdentity,
        safe_path: &Option<String>,
        preserve_all: bool,
    ) -> (r: Self)
        ensures
            r.login,
            r.preserve_all == preserve_all,
            views_of(r.safe_vars@) =~= preserve_list_spec(),
            r.set_vars.home@ == do_as.home@,
            r.set_vars.user@ == do_as.name@,
            r.set_vars.logname@ == do_as.name@,
            r.set_vars.shell@ == do_as.shell@,
            opt_string_eq(r.set_vars.path, *safe_path),
            r.do_as_uid == do_as.uid,
            r.do_as_gid == do_as.primary_gid,
    {
        Env {
            login: true,
            preserve_all,
            safe_vars: preserve_vars_list(),
            set_vars: Vars::login(do_as, safe_path),
            do_as_uid: do_as.uid,
            do_as_gid: do_as.primary_gid,
        }
    }

    /// The policy for a non-login shell.
    pub fn non_login_env(
        user: &UserIdentity,
        do_as: &UserIdentity,
        safe_path: &Option<String>,
        preserve_all: bool,
    ) -> (r: Self)
        ensures
            !r.login,
            r.preserve_all == preserve_all,
            views_of(r.safe_vars@) =~= safe_list_spec() + preserve_list_spec(),
            r.set_vars.home@ == user.home@,
            r.set_vars.user@ == do_as.name@,
            r.set_vars.logname@ == do_as.name@,
            r.set_vars.shell@ == user.shell@,
            opt_string_eq(r.set_vars.path, *safe_path),
            r.do_as_uid == do_as.uid,
            r.do_as_gid == do_as.primary_gid,
    {
        Env {
            login: false,
            preserve_all,
            safe_vars: safe_vars_list(),
            set_vars: Vars::non_login(user, do_as, safe_path),
            do_as_uid: do_as.uid,
            do_as_gid: do_as.primary_gid,
        }
    }

    /// The policy for running a single command; the same variables as a
    /// non-login shell.
    pub fn process_env(
        user: &UserIdentity,
        do_as: &UserIdentity,
        safe_path: &Option<String>,
        preserve_all: bool,
    ) -> (r: Self)
        ensures
            !r.login,
            r.preserve_all == preserve_all,
            views_of(r.safe_vars@) =~= safe_list_spec() + preserve_list_spec(),
            r.set_vars.home@ == user.home@,
            r.set_vars.user@ == do_as.name@,
            r.set_vars.logname@ == do_as.name@,
            r.set_vars.shell@ == user.shell@,
            opt_string_eq(r.set_vars.path, *safe_path),
            r.do_as_uid == do_as.uid,
            r.do_as_gid == do_as.primary_gid,
    {
        Self::non_login_env(user, do_as, safe_path, preserve_all)
    }

    /// A caller variable survives sanitization iff it is on the safe
    /// list, or is a locale variable ("LC_" prefix), or is PATH while no
    /// safe path overrides it.
    pub open spec fn var_valid_spec(&self, var: Seq<char>) -> bool {
        ||| (exists|k: int| 0 <= k < self.safe_vars@.len() && (#[trigger] self.safe_vars@[k])@
            == var)
        ||| matches_at(var, 0, "LC_"@)
        ||| (self.set_vars.path is None && var == "PATH"@)
    }

    /// Decides whether one variable survives.
    pub fn is_var_valid(&self, var: &str) -> (r: bool)
        ensures
            r == self.var_valid_spec(var@),
    {
        if contains_string(&self.safe_vars, var) {
            return true;
        }
        if match_at(var, 0, "LC_") {
            return true;
        }
        match &self.set_vars.path {
            Option::None => str_eq(var, "PATH"),
            Option::Some(_) => false,
        }
    }

    /// The names in `vars` that sanitization removes, in order.
    pub open spec fn removed_spec(&self, vars: Seq<(String, String)>) -> Seq<Seq<char>>
        decreases vars.len(),
    {
        if vars.len() == 0 {
            Seq::empty()
        } else {
            self.removed_spec(vars.drop_last()) + if !self.var_valid_spec(vars.last().0@) {
                seq![vars.last().0@]
            } else {
                Seq::empty()
            }
        }
    }

    /// Computes the removal list for a caller environment.
    pub fn vars_to_remove(&self, vars: &Vec<(String, String)>) -> (r: Vec<String>)
        ensures
            views_of(r@) =~= self.removed_spec(vars@),
    {
        let mut out: Vec<String> = Vec::new();
        let mut i: usize = 0;
        while i < vars.len()
            invariant
                0 <= i <= vars@.len(),
                views_of(out@) =~= self.removed_spec(vars@.subrange(0, i as int)),
            decreases vars@.len() - i,
        {
            proof {
                assert(vars@.subrange(0, i + 1).drop_last() =~= vars@.subrange(0, i as int));
                assert(vars@.subrange(0, i + 1).last() == vars@[i as int]);
            }
            if !self.is_var_valid(vars[i].0.as_str()) {
                out.push(vars[i].0.clone());
            }
            i = i + 1;
        }
        proof {
            assert(vars@.subrange(0, vars@.len() as int) =~= vars@);
        }
        out
    }
}

} // verus!
