//! The authentication orchestrator's decision core: a bounded-retry
//! state machine. The surrounding process owns the blocking parts — the
//! cache lookup, the password prompt and the external verifier call —
//! and feeds each outcome in; the machine decides whether to accept,
//! prompt again, lock out, or fail hard.

use vstd::prelude::*;
use crate::authenticate::AuthResult;

verus! {

/// What to do after one verifier outcome.
pub enum LoginDecision {
    /// The user is authenticated.
    Authenticated,
    /// Wrong credential with tries left: prompt again, this many tries
    /// remaining.
    RetryPrompt(usize),
    /// Wrong credential and no try left: locked out.
    LockedOut,
    /// The verifier infrastructure failed; not retried.
    Failed(String),
}

/// How a whole login run ends.
#[derive(Debug, Clone, Copy, PartialEq, Eq, Structural)]
pub enum LoginResult {
    Authenticated,
    LockedOut,
    Failed,
    /// The outcome feed ended before the machine reached a terminal
    /// state (cannot happen with a live verifier).
    Incomplete,
}

/// One step of the retry machine: `tries` is the number of prompts still
/// allowed including the one that produced `outcome`.
pub fn login_step(tries: usize, outcome: AuthResult) -> (r: LoginDecision)
    requires
        tries >= 1,
    ensures
        match outcome {
            AuthResult::Success => r is Authenticated,
            AuthResult::NotAuthenticated => if tries > 1 {
                r matches LoginDecision::RetryPrompt(t) && t == tries - 1
            } else {
                r is LockedOut
            },
            AuthResult::AuthenticationFailure(m) => r matches LoginDecision::Failed(mm) && mm@
                == m@,
        },
{
    match outcome {
        AuthResult::Success => LoginDecision::Authenticated,
        AuthResult::NotAuthenticated => {
            if tries > 1 {
                LoginDecision::RetryPrompt(tries - 1)
            } else {
                LoginDecision::LockedOut
            }
        },
        AuthResult::AuthenticationFailure(m) => LoginDecision::Failed(m),
    }
}

/// How many prompts a login run makes, given the retry budget and the
/// verifier outcome each prompt would produce.
pub open spec fn login_prompts(tries: nat, outcomes: Seq<AuthResult>) -> nat
    decreases outcomes.len(),
{
    if tries == 0 || outcomes.len() == 0 {
        0
    } else {
        match outcomes[0] {
            AuthResult::Success => 1,
            AuthResult::AuthenticationFailure(_) => 1,
            AuthResult::NotAuthenticated => if tries > 1 {
                (1 + login_prompts((tries - 1) as nat, outcomes.drop_first())) as nat
            } else {
                1
            },
        }
    }
}

/// How a login run ends, given the retry budget and the outcome feed.
pub open spec fn login_result(tries: nat, outcomes: Seq<AuthResult>) -> LoginResult
    decreases outcomes.len(),
{
    if tries == 0 || outcomes.len() == 0 {
        LoginResult::Incomplete
    } else {
        match outcomes[0] {
            AuthResult::Success => LoginResult::Authenticated,
            AuthResult::AuthenticationFailure(_) => LoginResult::Failed,
            AuthResult::NotAuthenticated => if tries > 1 {
                login_result((tries - 1) as nat, outcomes.drop_first())
            } else {
                LoginResult::LockedOut
            },
        }
    }
}

/// Law: with a budget of `tries` and nothing but wrong credentials,
/// exactly `tries` prompts happen and the run ends locked out — the last
/// wrong credential produces the lockout, not another prompt.
pub proof fn lemma_retry_exhaustion(tries: nat, outcomes: Seq<AuthResult>)
    requires
        tries >= 1,
        outcomes.len() >= tries,
        forall|i: int| 0 <= i < outcomes.len() ==> (#[trigger] outcomes[i]) is NotAuthenticated,
    ensures
        login_prompts(tries, outcomes) == tries,
        login_result(tries, outcomes) == LoginResult::LockedOut,
    decreases tries,
{
    if tries > 1 {
        lemma_retry_exhaustion((tries - 1) as nat, outcomes.drop_first());
    }
}

/// Replays a login run over a recorded feed of outcomes, stepping the
/// machine exactly as the interactive loop does; returns how it ended
/// and how many prompts it made.
pub fn replay_login(tries: usize, outcomes: &Vec<AuthResult>) -> (r: (LoginResult, usize))
    requires
        tries >= 1,
    ensures
        r.0 == login_result(tries as nat, outcomes@),
        r.1 == login_prompts(tries as nat, outcomes@),
{
    let mut tries_left: usize = tries;
    let mut i: usize = 0;
    let mut prompts: usize = 0;
    proof {
        assert(outcomes@.skip(0) =~= outcomes@);
    }
    while i < outcomes.len()
        invariant
            1 <= tries_left <= tries,
            0 <= i <= outcomes@.len(),
            prompts == i,
            login_result(tries as nat, outcomes@) == login_result(
                tries_left as nat,
                outcomes@.skip(i as int),
            ),
            login_prompts(tries as nat, outcomes@) == i + login_prompts(
                tries_left as nat,
                outcomes@.skip(i as int),
            ),
        decreases outcomes@.len() - i,
    {
        let outcome = match &outcomes[i] {
            AuthResult::Success => AuthResult::Success,
            AuthResult::NotAuthenticated => AuthResult::NotAuthenticated,
            AuthResult::AuthenticationFailure(m) => AuthResult::AuthenticationFailure(m.clone()),
        };
        let ghost rest = outcomes@.skip(i as int);
        proof {
            assert(rest.len() > 0);
            assert(rest[0] == outcomes@[i as int]);
            assert(rest.drop_first() =~= outcomes@.skip(i + 1));
        }
        let step = login_step(tries_left, outcome);
        prompts = prompts + 1;
        i = i + 1;
        match step {
            LoginDecision::Authenticated => {
                return (LoginResult::Authenticated, prompts);
            },
            LoginDecision::Failed(_) => {
                return (LoginResult::Failed, prompts);
            },
            LoginDecision::LockedOut => {
                return (LoginResult::LockedOut, prompts);
            },
            LoginDecision::RetryPrompt(t) => {
                tries_left = t;
            },
        }
    }
    proof {
        assert(outcomes@.skip(i as int) =~= Seq::<AuthResult>::empty());
    }
    (LoginResult::Incomplete, prompts)
}

} // verus!
