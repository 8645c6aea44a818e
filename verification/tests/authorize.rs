use udo::authenticate::{
    authorize_resolved, authorize_with_host, check_action_auth, classify_verifier_outcome,
    rule_applies_group, Action, ActionValue, AuthError, AuthErrorKind, AuthResult, Rule,
};
use udo::user::UserIdentity;

fn alice() -> UserIdentity {
    UserIdentity {
        name: "alice".to_string(),
        uid: 1000,
        primary_gid: 1000,
        home: "/home/alice".to_string(),
        shell: "/bin/sh".to_string(),
    }
}

fn rule(target: &str, host: &str, user: &str, command: &str) -> Rule {
    Rule::new(
        target.to_string(),
        host.to_string(),
        user.to_string(),
        command.to_string(),
    )
}

#[test]
fn selector_parsing() {
    assert!(matches!(ActionValue::from_selector("any"), ActionValue::Any));
    assert!(matches!(ActionValue::from_selector("root"), ActionValue::Value(_)));
    let host = Action::from_rule(&rule("alice", "printer1", "root", "any"));
    assert!(matches!(host.command, ActionValue::Any));
    assert!(matches!(host.host, Some(ActionValue::Value(_))));
    assert!(matches!(host.do_as, ActionValue::Value(_)));
}

#[test]
fn all_any_action_contains_everything() {
    // containment reflexivity: an all-Any action contains every request
    let any = Action {
        command: ActionValue::Any,
        host: Some(ActionValue::Any),
        do_as: ActionValue::Any,
    };
    let requests = [
        Action {
            command: ActionValue::Value("/bin/ls".to_string()),
            host: Some(ActionValue::Value("myhost".to_string())),
            do_as: ActionValue::Value("root".to_string()),
        },
        Action {
            command: ActionValue::Any,
            host: None,
            do_as: ActionValue::Any,
        },
    ];
    for r in &requests {
        assert!(any.contains(r));
    }
}

#[test]
fn literal_fields_demand_equality() {
    // containment specificity: a literal field only contains byte-equal requests
    let allowed = Action {
        command: ActionValue::Value("/bin/ls".to_string()),
        host: Some(ActionValue::Any),
        do_as: ActionValue::Value("root".to_string()),
    };
    let matching = Action {
        command: ActionValue::Value("/bin/ls".to_string()),
        host: Some(ActionValue::Value("h".to_string())),
        do_as: ActionValue::Value("root".to_string()),
    };
    assert!(allowed.contains(&matching));
    let other_cmd = Action {
        command: ActionValue::Value("/bin/cat".to_string()),
        ..matching.clone()
    };
    assert!(!allowed.contains(&other_cmd));
    let any_cmd = Action {
        command: ActionValue::Any,
        ..matching.clone()
    };
    assert!(!allowed.contains(&any_cmd));
}

#[test]
fn scenario_rule_allows_alice_ls_as_root() {
    // Rule{target: alice, host: any, run_as: root, command: any};
    // alice runs /bin/ls as root on some host: authorized
    let rules = vec![rule("alice", "any", "root", "any")];
    let host = "myhost".to_string();
    let user = alice();
    assert!(authorize_with_host(&user, &rules, Some(&host), "/bin/ls", "root"));
}

#[test]
fn scenario_run_as_mismatch_denied() {
    // same rule; alice asks to become bob: the run_as literal mismatches
    let rules = vec![rule("alice", "any", "root", "any")];
    let host = "myhost".to_string();
    let user = alice();
    assert!(!authorize_with_host(&user, &rules, Some(&host), "/bin/ls", "bob"));
}

#[test]
fn scenario_unknown_hostname_fails_closed() {
    // hostname unresolvable and the only rule names a literal host:
    // denied no matter how the other fields match
    let rules = vec![rule("alice", "printer1", "root", "any")];
    let user = alice();
    assert!(!authorize_with_host(&user, &rules, None, "/bin/ls", "root"));
    // but an any-host rule still matches without a hostname
    let open_rules = vec![rule("alice", "any", "root", "any")];
    assert!(authorize_with_host(&user, &open_rules, None, "/bin/ls", "root"));
}

#[test]
fn full_check_with_live_hostname() {
    // an "any"-host rule naming the user grants on every host, whatever
    // the live hostname resolves to (or fails to)
    let rules = vec![rule("alice", "any", "root", "any")];
    let user = alice();
    let target = UserIdentity {
        name: "root".to_string(),
        uid: 0,
        primary_gid: 0,
        home: "/root".to_string(),
        shell: "/bin/sh".to_string(),
    };
    assert!(check_action_auth(&user, &target, "/bin/ls", &rules));
    // and a run_as mismatch denies on every host
    let bob = UserIdentity {
        name: "bob".to_string(),
        uid: 1001,
        primary_gid: 1001,
        home: "/home/bob".to_string(),
        shell: "/bin/sh".to_string(),
    };
    assert!(!check_action_auth(&user, &bob, "/bin/ls", &rules));
}

#[test]
fn unrelated_rules_do_not_authorize() {
    let rules = vec![rule("bob", "any", "any", "any")];
    let host = "myhost".to_string();
    let user = alice();
    assert!(!authorize_with_host(&user, &rules, Some(&host), "/bin/ls", "root"));
    assert!(!authorize_with_host(&user, &Vec::new(), Some(&host), "/bin/ls", "root"));
}

#[test]
fn resolved_actions_authorize_directly() {
    let allowed = vec![Action::from_rule(&rule("alice", "any", "root", "/bin/ls"))];
    let host = "myhost".to_string();
    assert!(authorize_resolved(&allowed, Some(&host), "/bin/ls", "root"));
    assert!(!authorize_resolved(&allowed, Some(&host), "/bin/cat", "root"));
    assert!(!authorize_resolved(&Vec::new(), Some(&host), "/bin/ls", "root"));
}

#[test]
fn group_membership_decides_group_rules() {
    // group-based authorization: exactly a primary or supplementary
    // match on the resolved gid authorizes
    let user = alice();
    let supp = vec![4u32, 27u32];
    assert!(rule_applies_group(&user, Some(1000), &supp));
    assert!(rule_applies_group(&user, Some(27), &supp));
    assert!(!rule_applies_group(&user, Some(999), &supp));
    assert!(!rule_applies_group(&user, None, &supp));
}

#[test]
fn verifier_outcomes_classify() {
    assert!(matches!(
        classify_verifier_outcome(Ok(())),
        AuthResult::Success
    ));
    let wrong = AuthError {
        kind: AuthErrorKind::AuthenticateFailure,
        message: "denied".to_string(),
    };
    assert!(matches!(
        classify_verifier_outcome(Err(wrong)),
        AuthResult::NotAuthenticated
    ));
    let invalid = AuthError {
        kind: AuthErrorKind::ValidationFailure,
        message: "expired".to_string(),
    };
    assert!(matches!(
        classify_verifier_outcome(Err(invalid)),
        AuthResult::NotAuthenticated
    ));
    let broken = AuthError {
        kind: AuthErrorKind::StartFailure,
        message: "pam_start failed".to_string(),
    };
    match classify_verifier_outcome(Err(broken)) {
        AuthResult::AuthenticationFailure(m) => assert_eq!(m, "pam_start failed"),
        _ => panic!("a start failure must be a hard failure"),
    }
    let bad_input = AuthError {
        kind: AuthErrorKind::InvalidInput,
        message: "NUL in password".to_string(),
    };
    assert!(matches!(
        classify_verifier_outcome(Err(bad_input)),
        AuthResult::AuthenticationFailure(_)
    ));
}
