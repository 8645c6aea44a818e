use udo::authenticate::AuthResult;
use udo::login::{login_step, replay_login, LoginDecision, LoginResult};

#[test]
fn retry_exhaustion_locks_out() {
    // tries = 3 and three wrong credentials: exactly 3 prompts, the
    // third failure is the lockout, no fourth prompt even when a fourth
    // outcome is available
    let outcomes = vec![
        AuthResult::NotAuthenticated,
        AuthResult::NotAuthenticated,
        AuthResult::NotAuthenticated,
        AuthResult::NotAuthenticated,
    ];
    let (result, prompts) = replay_login(3, &outcomes);
    assert_eq!(result, LoginResult::LockedOut);
    assert_eq!(prompts, 3);
}

#[test]
fn single_try_locks_out_immediately() {
    let outcomes = vec![AuthResult::NotAuthenticated];
    let (result, prompts) = replay_login(1, &outcomes);
    assert_eq!(result, LoginResult::LockedOut);
    assert_eq!(prompts, 1);
}

#[test]
fn success_stops_prompting() {
    let outcomes = vec![
        AuthResult::NotAuthenticated,
        AuthResult::Success,
        AuthResult::NotAuthenticated,
    ];
    let (result, prompts) = replay_login(3, &outcomes);
    assert_eq!(result, LoginResult::Authenticated);
    assert_eq!(prompts, 2);
}

#[test]
fn hard_verifier_error_is_not_retried() {
    let outcomes = vec![
        AuthResult::AuthenticationFailure("pam is broken".to_string()),
        AuthResult::NotAuthenticated,
    ];
    let (result, prompts) = replay_login(3, &outcomes);
    assert_eq!(result, LoginResult::Failed);
    assert_eq!(prompts, 1);
}

#[test]
fn step_by_step_retry_countdown() {
    // the machine hands back the decremented budget at each wrong try
    match login_step(3, AuthResult::NotAuthenticated) {
        LoginDecision::RetryPrompt(t) => assert_eq!(t, 2),
        _ => panic!("expected another prompt"),
    }
    match login_step(2, AuthResult::NotAuthenticated) {
        LoginDecision::RetryPrompt(t) => assert_eq!(t, 1),
        _ => panic!("expected another prompt"),
    }
    assert!(matches!(
        login_step(1, AuthResult::NotAuthenticated),
        LoginDecision::LockedOut
    ));
    assert!(matches!(
        login_step(1, AuthResult::Success),
        LoginDecision::Authenticated
    ));
    match login_step(2, AuthResult::AuthenticationFailure("oops".to_string())) {
        LoginDecision::Failed(m) => assert_eq!(m, "oops"),
        _ => panic!("expected a hard failure"),
    }
}
