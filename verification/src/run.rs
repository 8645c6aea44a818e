//! The action dispatcher's decision core: requested actions with their
//! requirement flags, the fixed priority order they run in, and the
//! partition into actions that need authentication and those that do
//! not. The surrounding process performs the actions; this module
//! decides order and grouping, and maps a child's wait status to the
//! exit code to propagate.

use vstd::prelude::*;
use vstd::string::StringExecFns;

verus! {

/// What an action demands before it may run.
#[derive(PartialEq, Eq, Debug, Clone, Copy, Hash, Structural)]
pub struct ActionReqs {
    pub requires_auth: bool,
    pub requires_root: bool,
}

impl Default for ActionReqs {
    fn default() -> (r: Self)
        ensures
            !r.requires_auth,
            !r.requires_root,
    {
        ActionReqs { requires_auth: false, requires_root: false }
    }
}

impl ActionReqs {
    /// Requirements that demand authentication.
    pub fn auth() -> (r: Self)
        ensures
            r.requires_auth,
            !r.requires_root,
    {
        Self::default().with_auth()
    }

    /// Requirements that demand authentication as root.
    pub fn root() -> (r: Self)
        ensures
            r.requires_auth,
            r.requires_root,
    {
        Self::default().with_root()
    }

    pub fn with_auth(self) -> (r: Self)
        ensures
            r.requires_auth,
            r.requires_root == self.requires_root,
    {
        ActionReqs { requires_auth: true, ..self }
    }

    /// Root work always needs authentication too.
    pub fn with_root(self) -> (r: Self)
        ensures
            r.requires_auth,
            r.requires_root,
    {
        ActionReqs { requires_auth: true, requires_root: true }
    }
}

/// The kinds of requested action.
#[derive(PartialEq, Eq, Debug, Clone, Copy, Hash, Structural)]
pub enum ActionType {
    ClearCache,
    Login,
    Shell,
    RunCommand,
}

/// The fixed execution priority: clearing the cache always precedes any
/// action that could repopulate it, and running a command comes last.
pub open spec fn rank_spec(t: ActionType) -> int {
    match t {
        ActionType::ClearCache => 0,
        ActionType::Login => 1,
        ActionType::Shell => 2,
        ActionType::RunCommand => 3,
    }
}

impl ActionType {
    /// This kind's place in the fixed priority order.
    pub fn rank(&self) -> (r: u8)
        ensures
            r as int == rank_spec(*self),
    {
        match self {
            ActionType::ClearCache => 0,
            ActionType::Login => 1,
            ActionType::Shell => 2,
            ActionType::RunCommand => 3,
        }
    }

    /// A stable name for each kind, for display.
    pub fn as_str(&self) -> (r: &'static str)
        ensures
            (*self is ClearCache) ==> r@ == "clear_cache"@,
            (*self is Login) ==> r@ == "login_shell"@,
            (*self is Shell) ==> r@ == "normal_shell"@,
            (*self is RunCommand) ==> r@ == "run_command"@,
    {
        match self {
            ActionType::ClearCache => "clear_cache",
            ActionType::Login => "login_shell",
            ActionType::Shell => "normal_shell",
            ActionType::RunCommand => "run_command",
        }
    }
}

/// A requested action: its kind and what it requires.
#[derive(Debug, Clone, Copy, PartialEq, Eq, Structural)]
pub struct Action {
    pub a_type: ActionType,
    pub reqs: ActionReqs,
}

impl Action {
    pub fn new(a_type: ActionType, reqs: ActionReqs) -> (r: Self)
        ensures
            r.a_type == a_type,
            r.reqs == reqs,
    {
        Action { a_type, reqs }
    }
}

/// The run-level option flags.
#[derive(PartialEq, Eq, Debug, Clone, Copy, Hash, Structural)]
pub enum Flag {
    NoCheck,
    Preview,
    PreserveVars,
}

/// Whether a flag was given.
pub fn flags_contain(flags: &Vec<Flag>, f: Flag) -> (r: bool)
    ensures
        r == flags@.contains(f),
{
    let mut i: usize = 0;
    while i < flags.len()
        invariant
            0 <= i <= flags@.len(),
            forall|k: int| 0 <= k < i ==> flags@[k] != f,
        decreases flags@.len() - i,
    {
        if flags[i] == f {
            return true;
        }
        i = i + 1;
    }
    false
}

/// The subsequence of `v` whose actions have priority rank `k`, in their
/// original order.
pub open spec fn ranked(v: Seq<Action>, k: int) -> Seq<Action>
    decreases v.len(),
{
    if v.len() == 0 {
        Seq::empty()
    } else {
        ranked(v.drop_last(), k) + if rank_spec(v.last().a_type) == k {
            seq![v.last()]
        } else {
            Seq::empty()
        }
    }
}

fn filter_rank(v: &Vec<Action>, k: u8) -> (r: Vec<Action>)
    ensures
        r@ == ranked(v@, k as int),
{
    let mut out: Vec<Action> = Vec::new();
    let mut i: usize = 0;
    while i < v.len()
        invariant
            0 <= i <= v@.len(),
            out@ == ranked(v@.subrange(0, i as int), k as int),
        decreases v@.len() - i,
    {
        proof {
            assert(v@.subrange(0, i + 1).drop_last() =~= v@.subrange(0, i as int));
            assert(v@.subrange(0, i + 1).last() == v@[i as int]);
        }
        if v[i].a_type.rank() == k {
            out.push(v[i]);
        }
        i = i + 1;
    }
    proof {
        assert(v@.subrange(0, v@.len() as int) =~= v@);
    }
    out
}

/// Every action in `ranked(v, k)` has rank `k`.
proof fn lemma_ranked_rank(v: Seq<Action>, k: int)
    ensures
        forall|i: int| 0 <= i < ranked(v, k).len() ==> rank_spec(#[trigger] ranked(v, k)[i].a_type)
            == k,
    decreases v.len(),
{
    if v.len() > 0 {
        lemma_ranked_rank(v.drop_last(), k);
    }
}

/// The four rank classes exhaust `v`.
proof fn lemma_ranked_len(v: Seq<Action>)
    ensures
        ranked(v, 0).len() + ranked(v, 1).len() + ranked(v, 2).len() + ranked(v, 3).len()
            == v.len(),
    decreases v.len(),
{
    if v.len() > 0 {
        lemma_ranked_len(v.drop_last());
    }
}

/// Actions sorted by priority rank.
pub open spec fn sorted_by_rank(s: Seq<Action>) -> bool {
    forall|i: int, j: int|
        0 <= i < j < s.len() ==> rank_spec(#[trigger] s[i].a_type) <= rank_spec(
            #[trigger] s[j].a_type,
        )
}

/// Stable-sorts the requested actions into the fixed priority order:
/// the result is exactly the rank-0 actions in order, then rank 1, then
/// rank 2, then rank 3.
pub fn sort_actions(v: &Vec<Action>) -> (r: Vec<Action>)
    ensures
        r@ == ranked(v@, 0) + ranked(v@, 1) + ranked(v@, 2) + ranked(v@, 3),
        sorted_by_rank(r@),
        r@.len() == v@.len(),
{
    let mut r = filter_rank(v, 0);
    let mut c1 = filter_rank(v, 1);
    let mut c2 = filter_rank(v, 2);
    let mut c3 = filter_rank(v, 3);
    r.append(&mut c1);
    r.append(&mut c2);
    r.append(&mut c3);
    proof {
        lemma_ranked_rank(v@, 0);
        lemma_ranked_rank(v@, 1);
        lemma_ranked_rank(v@, 2);
        lemma_ranked_rank(v@, 3);
        lemma_ranked_len(v@);
        assert(r@ =~= ranked(v@, 0) + ranked(v@, 1) + ranked(v@, 2) + ranked(v@, 3));
    }
    r
}

/// The subsequence of `v` whose `requires_auth` flag is `want`, in
/// order.
pub open spec fn auth_filtered(v: Seq<Action>, want: bool) -> Seq<Action>
    decreases v.len(),
{
    if v.len() == 0 {
        Seq::empty()
    } else {
        auth_filtered(v.drop_last(), want) + if v.last().reqs.requires_auth == want {
            seq![v.last()]
        } else {
            Seq::empty()
        }
    }
}

/// The subsequence of `v` that requires root, in order.
pub open spec fn root_filtered(v: Seq<Action>) -> Seq<Action>
    decreases v.len(),
{
    if v.len() == 0 {
        Seq::empty()
    } else {
        root_filtered(v.drop_last()) + if v.last().reqs.requires_root {
            seq![v.last()]
        } else {
            Seq::empty()
        }
    }
}

/// Splits the actions into those that require authentication and those
/// that can run without it.
pub fn partition_by_auth(v: &Vec<Action>) -> (r: (Vec<Action>, Vec<Action>))
    ensures
        r.0@ == auth_filtered(v@, true),
        r.1@ == auth_filtered(v@, false),
{
    let mut yes: Vec<Action> = Vec::new();
    let mut no: Vec<Action> = Vec::new();
    let mut i: usize = 0;
    while i < v.len()
        invariant
            0 <= i <= v@.len(),
            yes@ == auth_filtered(v@.subrange(0, i as int), true),
            no@ == auth_filtered(v@.subrange(0, i as int), false),
        decreases v@.len() - i,
    {
        proof {
            assert(v@.subrange(0, i + 1).drop_last() =~= v@.subrange(0, i as int));
            assert(v@.subrange(0, i + 1).last() == v@[i as int]);
        }
        if v[i].reqs.requires_auth {
            yes.push(v[i]);
        } else {
            no.push(v[i]);
        }
        i = i + 1;
    }
    proof {
        assert(v@.subrange(0, v@.len() as int) =~= v@);
    }
    (yes, no)
}

/// The actions that require running as root.
pub fn filter_requiring_root(v: &Vec<Action>) -> (r: Vec<Action>)
    ensures
        r@ == root_filtered(v@),
{
    let mut out: Vec<Action> = Vec::new();
    let mut i: usize = 0;
    while i < v.len()
        invariant
            0 <= i <= v@.len(),
            out@ == root_filtered(v@.subrange(0, i as int)),
        decreases v@.len() - i,
    {
        proof {
            assert(v@.subrange(0, i + 1).drop_last() =~= v@.subrange(0, i as int));
            assert(v@.subrange(0, i + 1).last() == v@[i as int]);
        }
        if v[i].reqs.requires_root {
            out.push(v[i]);
        }
        i = i + 1;
    }
    proof {
        assert(v@.subrange(0, v@.len() as int) =~= v@);
    }
    out
}

/// How a waited-for child ended.
#[derive(Debug, Clone, Copy, PartialEq, Eq, Structural)]
pub enum WaitOutcome {
    /// The child exited with this status.
    Exited(i32),
    /// The child was killed by this signal.
    Signaled(i32),
    /// Anything else the wait reported.
    Other,
}

/// The exit code the parent propagates: the child's own code, or
/// `128 + signal` for a signal death (the Unix convention), or 1.
pub fn exit_code_for(w: &WaitOutcome) -> (r: i32)
    requires
        w matches WaitOutcome::Signaled(sig) ==> 0 <= *sig <= 1024,
    ensures
        match w {
            WaitOutcome::Exited(status) => r == *status,
            WaitOutcome::Signaled(sig) => r == 128 + *sig,
            WaitOutcome::Other => r == 1,
        },
{
    match w {
        WaitOutcome::Exited(status) => *status,
        WaitOutcome::Signaled(sig) => 128 + *sig,
        WaitOutcome::Other => 1,
    }
}

/// The first argument a login shell is invoked with: the command name
/// with a leading dash, the convention shells read as "act as a login
/// shell".
pub fn login_arg(arg: &str) -> (r: String)
    ensures
        r@ == "-"@ + arg@,
{
    let mut s = String::from_str("-");
    s.append(arg);
    s
}

/// The command a shell action runs: the resolved user's login shell.
pub fn get_shell_cmd(user: &crate::user::UserIdentity) -> (r: String)
    ensures
        r@ == user.shell@,
{
    user.shell.clone()
}

/// Whether the executable's ownership and mode let it act as a setuid
/// gate: owned by root, setuid bit set.
pub fn perms_valid(owner_uid: u32, mode: u32) -> (r: bool)
    ensures
        r == (owner_uid == 0 && mode & 0o4000u32 != 0),
{
    owner_uid == 0 && mode & 0o4000u32 != 0
}

} // verus!
