//! The authorization engine and the verifier-outcome classification.
//!
//! A configured `Rule` grants a user (or a group) the right to run
//! commands as another user, optionally restricted by host. Rules convert
//! into `Action`s over tagged selector values, and a request is authorized
//! exactly when some allowed action contains it.

use vstd::prelude::*;
use vstd::string::StrSliceExecFns;
use vstd::string::StringExecFns;
use crate::error::Error;
use crate::text::str_eq;
use crate::text::contains_u32;
use crate::user::UserIdentity;

verus! {

/// The selector spelling that means "anything".
pub open spec fn any_seq() -> Seq<char> {
    "any"@
}

/// A selector value: either `Any`, or one specific value.
#[derive(Debug, Clone)]
pub enum ActionValue {
    Any,
    Value(String),
}

impl ActionValue {
    /// `self` is the tagged form of the selector string `s`: the literal
    /// spelling "any" becomes `Any`, every other string becomes `Value`.
    pub open spec fn is_selector_of(&self, s: Seq<char>) -> bool {
        if s == any_seq() {
            *self is Any
        } else {
            self matches ActionValue::Value(v) && v@ == s
        }
    }

    /// Parses a selector string into its tagged form.
    pub fn from_selector(s: &str) -> (r: Self)
        ensures
            r.is_selector_of(s@),
    {
        if str_eq(s, "any") {
            ActionValue::Any
        } else {
            ActionValue::Value(String::from_str(s))
        }
    }
}

/// What a rule allows, or what a user requests: a command, a host (`None`
/// when the live hostname could not be determined), and a target user.
#[derive(Debug, Clone)]
pub struct Action {
    pub command: ActionValue,
    pub host: Option<ActionValue>,
    pub do_as: ActionValue,
}

/// An allowed selector covers a requested one iff the allowed side is
/// `Any` or the two carry equal values.
pub open spec fn value_contains(a: ActionValue, b: ActionValue) -> bool {
    match a {
        ActionValue::Any => true,
        ActionValue::Value(v) => b matches ActionValue::Value(w) && v@ == w@,
    }
}

/// Host containment: when the requested host is unknown, only an `Any`
/// host field matches; otherwise the fields are compared like any other
/// selector, and a rule without a host field matches nothing.
pub open spec fn host_contains(a: Option<ActionValue>, b: Option<ActionValue>) -> bool {
    match b {
        Option::None => a matches Option::Some(ActionValue::Any),
        Option::Some(bh) => match a {
            Option::Some(ah) => value_contains(ah, bh),
            Option::None => false,
        },
    }
}

/// `a` contains `b` iff each of the three fields of `a` is `Any` or
/// equals the corresponding field of `b` (hosts as in `host_contains`).
pub open spec fn contains_spec(a: Action, b: Action) -> bool {
    &&& value_contains(a.command, b.command)
    &&& host_contains(a.host, b.host)
    &&& value_contains(a.do_as, b.do_as)
}

fn value_matches(a: &ActionValue, b: &ActionValue) -> (r: bool)
    ensures
        r == value_contains(*a, *b),
{
    match a {
        ActionValue::Any => true,
        ActionValue::Value(v) => match b {
            ActionValue::Value(w) => {
                let lv = v.clone();
                let lw = w.clone();
                lv == lw
            },
            ActionValue::Any => false,
        },
    }
}

impl Action {
    /// Whether this allowed action contains the requested action `other`.
    pub fn contains(&self, other: &Self) -> (r: bool)
        ensures
            r == contains_spec(*self, *other),
    {
        let cmd = value_matches(&self.command, &other.command);
        let host: bool = match &other.host {
            Option::None => matches!(&self.host, Option::Some(ActionValue::Any)),
            Option::Some(bh) => match &self.host {
                Option::Some(ah) => value_matches(ah, bh),
                Option::None => false,
            },
        };
        let run_as = value_matches(&self.do_as, &other.do_as);
        cmd && host && run_as
    }

    /// The allowed action a rule stands for: each selector string in its
    /// tagged form, the host always present.
    pub fn from_rule(rule: &Rule) -> (r: Self)
        ensures
            r.command.is_selector_of(rule.command@),
            r.host matches Some(h) && h.is_selector_of(rule.host@),
            r.do_as.is_selector_of(rule.user@),
    {
        Action {
            command: ActionValue::from_selector(rule.command.as_str()),
            host: Some(ActionValue::from_selector(rule.host.as_str())),
            do_as: ActionValue::from_selector(rule.user.as_str()),
        }
    }
}

/// Law: an action whose three fields are all `Any` contains every
/// possible requested action.
pub proof fn lemma_any_action_contains_all(a: Action, b: Action)
    requires
        a.command is Any,
        a.host matches Some(ActionValue::Any),
        a.do_as is Any,
    ensures
        contains_spec(a, b),
{
}

/// Law: a `Value` field only contains requests whose corresponding field
/// carries the equal value; in particular a literal host matches no
/// request whose hostname is unknown.
pub proof fn lemma_value_field_specificity(a: Action, b: Action)
    requires
        contains_spec(a, b),
    ensures
        a.command matches ActionValue::Value(v) ==> (b.command matches ActionValue::Value(w) && v@
            == w@),
        a.do_as matches ActionValue::Value(v) ==> (b.do_as matches ActionValue::Value(w) && v@
            == w@),
        a.host matches Some(ActionValue::Value(v)) ==> (b.host matches Some(
            ActionValue::Value(w),
        ) && v@ == w@),
{
}

/// A configured policy statement. `target` selects the users the rule
/// grants to ("%name" selects a group); the other three select what is
/// granted, with "any" as the wildcard spelling.
#[derive(Debug, Clone)]
pub struct Rule {
    pub target: String,
    pub host: String,
    pub user: String,
    pub command: String,
}

impl Rule {
    pub fn new(target: String, host: String, user: String, command: String) -> (r: Self)
        ensures
            r.target@ == target@,
            r.host@ == host@,
            r.user@ == user@,
            r.command@ == command@,
    {
        Rule { target, host, user, command }
    }

    /// Whether this rule's target selector covers `user`. The group
    /// branch consults the OS group database; a lookup failure makes the
    /// rule not apply (failing closed, toward denial).
    pub fn applies_to(&self, user: &UserIdentity) -> (r: bool)
        ensures
            self.target@ == user.name@ ==> r,
            self.target@ != user.name@ && !group_selector(self.target@) ==> !r,
            r ==> (self.target@ == user.name@ || group_selector(self.target@)),
    {
        if str_eq(self.target.as_str(), user.name.as_str()) {
            return true;
        }
        let n = self.target.as_str().unicode_len();
        if n == 0 || self.target.as_str().get_char(0) != '%' {
            return false;
        }
        let group_name = self.target.as_str().substring_char(1, n);
        let group_gid = match lookup_group_gid(group_name) {
            Ok(g) => g,
            Err(_) => return false,
        };
        let supp = match get_supplemental_groups() {
            Ok(s) => s,
            Err(_) => return false,
        };
        rule_applies_group(user, group_gid, &supp)
    }
}

/// Whether a target selector names a group rather than a user.
pub open spec fn group_selector(target: Seq<char>) -> bool {
    target.len() > 0 && target[0] == '%'
}

/// The group branch of rule applicability, over already-resolved group
/// data: the named group exists and its gid is the user's primary gid or
/// among the supplementary gids.
pub open spec fn group_applies_spec(primary_gid: u32, group_gid: Option<u32>, supp: Seq<u32>) -> bool {
    group_gid matches Some(g) && (g == primary_gid || supp.contains(g))
}

/// Decides the group branch from resolved group data.
pub fn rule_applies_group(user: &UserIdentity, group_gid: Option<u32>, supp: &Vec<u32>) -> (r: bool)
    ensures
        r == group_applies_spec(user.primary_gid, group_gid, supp@),
{
    match group_gid {
        Option::Some(g) => g == user.primary_gid || contains_u32(supp, g),
        Option::None => false,
    }
}

/// Law: a "%group" rule authorizes a user exactly when the named group
/// resolves and its gid is the user's primary gid or one of the user's
/// supplementary gids — never otherwise.
pub proof fn lemma_group_based_authorization(primary_gid: u32, group_gid: Option<u32>, supp: Seq<u32>)
    ensures
        group_applies_spec(primary_gid, group_gid, supp) <==> (group_gid matches Some(g) && (g
            == primary_gid || supp.contains(g))),
{
}

/// Relies on nix::unistd::Group::from_name (getgrnam_r): looks a group up
/// by name in the OS group database; `None` when no group has that name.
#[verifier::external_body]
fn lookup_group_gid(name: &str) -> (r: Result<Option<u32>, Error>) {
    match nix::unistd::Group::from_name(name) {
        Ok(Some(g)) => Ok(Some(g.gid.as_raw())),
        Ok(None) => Ok(None),
        Err(e) => Err(Error::new(crate::error::ErrorKind::System(e as i32), "group lookup failed")),
    }
}

/// Relies on nix::unistd::getgroups: the supplementary group ids of the
/// calling process.
#[verifier::external_body]
fn get_supplemental_groups() -> (r: Result<Vec<u32>, Error>) {
    match nix::unistd::getgroups() {
        Ok(gs) => Ok(gs.iter().map(|g| g.as_raw()).collect()),
        Err(e) => Err(Error::new(
            crate::error::ErrorKind::System(e as i32),
            "could not read supplementary groups",
        )),
    }
}

/// Relies on nix::unistd::gethostname: the live hostname, or `None` when
/// it cannot be read.
#[verifier::external_body]
fn get_hostname() -> (r: Option<String>) {
    match nix::unistd::gethostname() {
        Ok(h) => Some(h.to_string_lossy().to_string()),
        Err(_) => None,
    }
}

/// An allowed selector covers the raw requested string `s` once `s` is
/// put in tagged form ("any" becomes the `Any` request, which only an
/// `Any` selector covers).
pub open spec fn selector_covers(av: ActionValue, s: Seq<char>) -> bool {
    match av {
        ActionValue::Any => true,
        ActionValue::Value(v) => s != any_seq() && v@ == s,
    }
}

/// Host coverage over the raw hostname, `None` when it is unknown.
pub open spec fn host_covers(ah: Option<ActionValue>, host: Option<Seq<char>>) -> bool {
    match host {
        Option::None => ah matches Option::Some(ActionValue::Any),
        Option::Some(h) => match ah {
            Option::Some(av) => selector_covers(av, h),
            Option::None => false,
        },
    }
}

/// An allowed action covers the request (command word, hostname if
/// known, target user name).
pub open spec fn action_covers(
    a: Action,
    host: Option<Seq<char>>,
    cmd: Seq<char>,
    run_as: Seq<char>,
) -> bool {
    &&& selector_covers(a.command, cmd)
    &&& host_covers(a.host, host)
    &&& selector_covers(a.do_as, run_as)
}

/// Some allowed action covers the request.
pub open spec fn authorized_given(
    allowed: Seq<Action>,
    host: Option<Seq<char>>,
    cmd: Seq<char>,
    run_as: Seq<char>,
) -> bool {
    exists|i: int| 0 <= i < allowed.len() && action_covers(#[trigger] allowed[i], host, cmd, run_as)
}

/// A selector string covers a requested string, both still in their raw
/// spelling: the "any" spelling covers everything; any other spelling
/// covers exactly the equal request that is not itself the "any"
/// request.
pub open spec fn sel_str_covers(sel: Seq<char>, s: Seq<char>) -> bool {
    if sel == any_seq() {
        true
    } else {
        s != any_seq() && sel == s
    }
}

/// A host selector string covers the live hostname; an unknown hostname
/// is covered only by the "any" spelling.
pub open spec fn host_str_covers(sel: Seq<char>, host: Option<Seq<char>>) -> bool {
    match host {
        Option::None => sel == any_seq(),
        Option::Some(h) => sel_str_covers(sel, h),
    }
}

/// A rule's three granting selectors cover the request, directly over
/// the configured strings.
pub open spec fn rule_covers(
    rule: Rule,
    host: Option<Seq<char>>,
    cmd: Seq<char>,
    run_as: Seq<char>,
) -> bool {
    &&& sel_str_covers(rule.command@, cmd)
    &&& host_str_covers(rule.host@, host)
    &&& sel_str_covers(rule.user@, run_as)
}

/// The view of the optional hostname.
pub open spec fn host_view_of(hostname: Option<&String>) -> Option<Seq<char>> {
    match hostname {
        Option::Some(h) => Option::Some(h@),
        Option::None => Option::None,
    }
}

/// The action a rule converts into covers a request exactly when the
/// rule's own selector strings cover it.
proof fn lemma_from_rule_covers(
    a: Action,
    rule: Rule,
    host: Option<Seq<char>>,
    cmd: Seq<char>,
    run_as: Seq<char>,
)
    requires
        a.command.is_selector_of(rule.command@),
        a.host matches Some(h) && h.is_selector_of(rule.host@),
        a.do_as.is_selector_of(rule.user@),
    ensures
        action_covers(a, host, cmd, run_as) == rule_covers(rule, host, cmd, run_as),
{
}

proof fn lemma_selector_covers(av: ActionValue, req: ActionValue, s: Seq<char>)
    requires
        req.is_selector_of(s),
    ensures
        value_contains(av, req) == selector_covers(av, s),
{
}

/// Decides authorization once every machine-dependent lookup is resolved:
/// `allowed` are the actions of the rules that apply to the invoking
/// user, `hostname` the live hostname if it could be determined.
pub fn authorize_resolved(
    allowed: &Vec<Action>,
    hostname: Option<&String>,
    command_word: &str,
    run_as: &str,
) -> (r: bool)
    ensures
        r == authorized_given(
            allowed@,
            match hostname {
                Some(h) => Some(h@),
                None => None,
            },
            command_word@,
            run_as@,
        ),
{
    let ghost host_view: Option<Seq<char>> = match hostname {
        Some(h) => Some(h@),
        None => None,
    };
    let request = Action {
        command: ActionValue::from_selector(command_word),
        host: match hostname {
            Some(h) => Some(ActionValue::from_selector(h.as_str())),
            None => None,
        },
        do_as: ActionValue::from_selector(run_as),
    };
    let mut i: usize = 0;
    while i < allowed.len()
        invariant
            0 <= i <= allowed@.len(),
            host_view == match hostname {
                Some(h) => Some(h@),
                None => None,
            },
            request.command.is_selector_of(command_word@),
            request.do_as.is_selector_of(run_as@),
            match host_view {
                Some(h) => request.host matches Some(av) && av.is_selector_of(h),
                None => request.host is None,
            },
            forall|k: int|
                0 <= k < i ==> !action_covers(#[trigger] allowed@[k], host_view, command_word@, run_as@),
        decreases allowed@.len() - i,
    {
        let hit = allowed[i].contains(&request);
        proof {
            lemma_selector_covers(allowed@[i as int].command, request.command, command_word@);
            lemma_selector_covers(allowed@[i as int].do_as, request.do_as, run_as@);
            assert(host_contains(allowed@[i as int].host, request.host) == host_covers(
                allowed@[i as int].host,
                host_view,
            ));
        }
        if hit {
            proof {
                assert(action_covers(allowed@[i as int], host_view, command_word@, run_as@));
            }
            return true;
        }
        i = i + 1;
    }
    false
}

/// The full authorization decision of the engine for one request, with
/// the hostname already resolved: filters the rules that apply to the
/// invoking user, converts them, and checks containment.
///
/// The filtering step reads the OS group database, so the contract pins
/// everything that does not depend on it: a rule that names the invoking
/// user and covers the request always grants it, and every grant comes
/// from a covering rule that names the user or a group.
pub fn authorize_with_host(
    user: &UserIdentity,
    rules: &Vec<Rule>,
    hostname: Option<&String>,
    command_word: &str,
    run_as: &str,
) -> (r: bool)
    ensures
        (exists|i: int|
            0 <= i < rules@.len() && (#[trigger] rules@[i]).target@ == user.name@ && rule_covers(
                rules@[i],
                host_view_of(hostname),
                command_word@,
                run_as@,
            )) ==> r,
        r ==> exists|i: int|
            0 <= i < rules@.len() && ((#[trigger] rules@[i]).target@ == user.name@
                || group_selector(rules@[i].target@)) && rule_covers(
                rules@[i],
                host_view_of(hostname),
                command_word@,
                run_as@,
            ),
{
    let ghost hv = host_view_of(hostname);
    let ghost cmd = command_word@;
    let ghost run = run_as@;
    let mut allowed: Vec<Action> = Vec::new();
    let mut i: usize = 0;
    while i < rules.len()
        invariant
            0 <= i <= rules@.len(),
            hv == host_view_of(hostname),
            cmd == command_word@,
            run == run_as@,
            forall|j: int|
                0 <= j < allowed@.len() ==> exists|k: int|
                    0 <= k < i && ((#[trigger] rules@[k]).target@ == user.name@ || group_selector(
                        rules@[k].target@,
                    )) && (action_covers(#[trigger] allowed@[j], hv, cmd, run) ==> rule_covers(
                        rules@[k],
                        hv,
                        cmd,
                        run,
                    )),
            forall|k: int|
                0 <= k < i && (#[trigger] rules@[k]).target@ == user.name@ && rule_covers(
                    rules@[k],
                    hv,
                    cmd,
                    run,
                ) ==> authorized_given(allowed@, hv, cmd, run),
        decreases rules@.len() - i,
    {
        let ghost old_allowed = allowed@;
        if rules[i].applies_to(user) {
            let action = Action::from_rule(&rules[i]);
            proof {
                lemma_from_rule_covers(action, rules@[i as int], hv, cmd, run);
            }
            allowed.push(action);
            proof {
                assert(allowed@ == old_allowed.push(action));
                assert(allowed@[allowed@.len() - 1] == action);
                assert forall|j: int| 0 <= j < old_allowed.len() implies allowed@[j]
                    == old_allowed[j] by {}
                if rule_covers(rules@[i as int], hv, cmd, run) {
                    assert(action_covers(allowed@[allowed@.len() - 1], hv, cmd, run));
                }
                assert forall|k: int|
                    0 <= k < i + 1 && (#[trigger] rules@[k]).target@ == user.name@ && rule_covers(
                        rules@[k],
                        hv,
                        cmd,
                        run,
                    ) implies authorized_given(allowed@, hv, cmd, run) by {
                    if k < i {
                        assert(authorized_given(old_allowed, hv, cmd, run));
                        let w = choose|w: int|
                            0 <= w < old_allowed.len() && action_covers(
                                #[trigger] old_allowed[w],
                                hv,
                                cmd,
                                run,
                            );
                        assert(action_covers(allowed@[w], hv, cmd, run));
                    } else {
                        assert(action_covers(allowed@[allowed@.len() - 1], hv, cmd, run));
                    }
                }
            }
        } else {
            proof {
                // a rule naming the user always applies, so this branch
                // cannot drop one
                assert(rules@[i as int].target@ != user.name@);
            }
        }
        i = i + 1;
    }
    let r = authorize_resolved(&allowed, hostname, command_word, run_as);
    proof {
        if r {
            let j = choose|j: int|
                0 <= j < allowed@.len() && action_covers(#[trigger] allowed@[j], hv, cmd, run);
            assert(exists|k: int|
                0 <= k < rules@.len() && ((#[trigger] rules@[k]).target@ == user.name@
                    || group_selector(rules@[k].target@)) && (action_covers(allowed@[j], hv, cmd, run)
                    ==> rule_covers(rules@[k], hv, cmd, run)));
        }
    }
    r
}

/// Checks whether the invoking user is allowed to run `command` as
/// `do_as` on this host, against the configured rules. The live hostname
/// is read here; when it cannot be determined, only rules whose host
/// selector is "any" can match. The contract pins what does not depend
/// on that reading: a rule that names the user, carries the "any" host
/// selector and covers the rest of the request grants it on every host,
/// and every grant comes from a covering rule that names the user or a
/// group.
pub fn check_action_auth(
    user: &UserIdentity,
    do_as: &UserIdentity,
    command_word: &str,
    rules: &Vec<Rule>,
) -> (r: bool)
    ensures
        (exists|i: int|
            0 <= i < rules@.len() && (#[trigger] rules@[i]).target@ == user.name@
                && rules@[i].host@ == any_seq() && sel_str_covers(rules@[i].command@, command_word@)
                && sel_str_covers(rules@[i].user@, do_as.name@)) ==> r,
        r ==> exists|h: Option<Seq<char>>, i: int|
            0 <= i < rules@.len() && (rules@[i].target@ == user.name@ || group_selector(
                rules@[i].target@,
            )) && #[trigger] rule_covers(rules@[i], h, command_word@, do_as.name@),
{
    let hostname = get_hostname();
    let host_ref = hostname.as_ref();
    let r = authorize_with_host(user, rules, host_ref, command_word, do_as.name.as_str());
    proof {
        let hv = host_view_of(host_ref);
        if exists|i: int|
            0 <= i < rules@.len() && (#[trigger] rules@[i]).target@ == user.name@ && rules@[i].host@
                == any_seq() && sel_str_covers(rules@[i].command@, command_word@) && sel_str_covers(
                rules@[i].user@,
                do_as.name@,
            ) {
            let i = choose|i: int|
                0 <= i < rules@.len() && (#[trigger] rules@[i]).target@ == user.name@
                    && rules@[i].host@ == any_seq() && sel_str_covers(
                    rules@[i].command@,
                    command_word@,
                ) && sel_str_covers(rules@[i].user@, do_as.name@);
            assert(host_str_covers(rules@[i].host@, hv));
            assert(rule_covers(rules@[i], hv, command_word@, do_as.name@));
        }
    }
    r
}

/// How an external verifier's outcome was classified.
pub enum AuthResult {
    /// The verifier infrastructure itself failed; not retryable.
    AuthenticationFailure(String),
    /// The credential was wrong; consumes one retry.
    NotAuthenticated,
    /// The credential was accepted.
    Success,
}

/// The failure kinds an external credential verifier can report.
#[derive(Debug, Clone, Copy, PartialEq, Eq, Structural)]
pub enum AuthErrorKind {
    InvalidInput,
    StartFailure,
    AuthenticateFailure,
    ValidationFailure,
}

/// A verifier failure: its kind and a human-readable message.
#[derive(Debug, Clone)]
pub struct AuthError {
    pub kind: AuthErrorKind,
    pub message: String,
}

/// Classifies a verifier outcome: success authenticates; a wrong
/// credential is retryable; a broken verifier (invalid input or a start
/// failure) is a hard failure carrying its message.
pub fn classify_verifier_outcome(outcome: Result<(), AuthError>) -> (r: AuthResult)
    ensures
        match outcome {
            Ok(_) => r is Success,
            Err(e) => match e.kind {
                AuthErrorKind::InvalidInput | AuthErrorKind::StartFailure => r matches
                    AuthResult::AuthenticationFailure(m) && m@ == e.message@,
                AuthErrorKind::AuthenticateFailure | AuthErrorKind::ValidationFailure => r
                    is NotAuthenticated,
            },
        },
{
    match outcome {
        Ok(_) => AuthResult::Success,
        Err(e) => match e.kind {
            AuthErrorKind::InvalidInput | AuthErrorKind::StartFailure => {
                AuthResult::AuthenticationFailure(e.message)
            },
            AuthErrorKind::AuthenticateFailure | AuthErrorKind::ValidationFailure => {
                AuthResult::NotAuthenticated
            },
        },
    }
}

} // verus!
