use udo::config::{Config, SecurityConfig};
use udo::env::{Env, Vars};
use udo::error::{Error, ErrorKind};
use udo::output::{try_word, Confirmation, Output, PromptStyle};
use udo::run::{
    exit_code_for, filter_requiring_root, flags_contain, login_arg, partition_by_auth, perms_valid,
    sort_actions, Action, ActionReqs, ActionType, Flag, WaitOutcome,
};
use udo::text::{i64_to_dec, u64_to_dec};
use udo::user::UserIdentity;

fn alice() -> UserIdentity {
    UserIdentity {
        name: "alice".to_string(),
        uid: 1000,
        primary_gid: 1000,
        home: "/home/alice".to_string(),
        shell: "/bin/zsh".to_string(),
    }
}

fn root_user() -> UserIdentity {
    UserIdentity {
        name: "root".to_string(),
        uid: 0,
        primary_gid: 0,
        home: "/root".to_string(),
        shell: "/bin/sh".to_string(),
    }
}

#[test]
fn action_reqs_builders() {
    assert_eq!(
        ActionReqs::auth(),
        ActionReqs {
            requires_auth: true,
            requires_root: false
        }
    );
    assert_eq!(
        ActionReqs::root(),
        ActionReqs {
            requires_auth: true,
            requires_root: true
        }
    );
    assert_eq!(ActionReqs::default().with_auth(), ActionReqs::auth());
    assert_eq!(ActionReqs::default().with_root(), ActionReqs::root());
}

#[test]
fn actions_sort_into_priority_order() {
    let v = vec![
        Action::new(ActionType::RunCommand, ActionReqs::auth()),
        Action::new(ActionType::ClearCache, ActionReqs::auth()),
        Action::new(ActionType::Shell, ActionReqs::auth()),
        Action::new(ActionType::Login, ActionReqs::auth()),
    ];
    let sorted = sort_actions(&v);
    let kinds: Vec<ActionType> = sorted.iter().map(|a| a.a_type).collect();
    assert_eq!(
        kinds,
        vec![
            ActionType::ClearCache,
            ActionType::Login,
            ActionType::Shell,
            ActionType::RunCommand
        ]
    );
}

#[test]
fn sorting_is_stable_within_a_rank() {
    let a = Action::new(ActionType::Shell, ActionReqs::auth());
    let b = Action::new(ActionType::Shell, ActionReqs::root());
    let v = vec![a, b, a];
    assert_eq!(sort_actions(&v), vec![a, b, a]);
}

#[test]
fn partition_separates_auth_from_free_actions() {
    let clear = Action::new(ActionType::ClearCache, ActionReqs::default());
    let run = Action::new(ActionType::RunCommand, ActionReqs::auth());
    let shell = Action::new(ActionType::Shell, ActionReqs::root());
    let (need_auth, free) = partition_by_auth(&vec![clear, run, shell]);
    assert_eq!(need_auth, vec![run, shell]);
    assert_eq!(free, vec![clear]);
    assert_eq!(filter_requiring_root(&vec![clear, run, shell]), vec![shell]);
}

#[test]
fn flags_lookup() {
    let flags = vec![Flag::Preview, Flag::PreserveVars];
    assert!(flags_contain(&flags, Flag::Preview));
    assert!(!flags_contain(&flags, Flag::NoCheck));
}

#[test]
fn child_exit_codes_propagate() {
    assert_eq!(exit_code_for(&WaitOutcome::Exited(0)), 0);
    assert_eq!(exit_code_for(&WaitOutcome::Exited(3)), 3);
    // a signal death maps to 128 + the signal number
    assert_eq!(exit_code_for(&WaitOutcome::Signaled(9)), 137);
    assert_eq!(exit_code_for(&WaitOutcome::Other), 1);
}

#[test]
fn setuid_gate_permissions() {
    assert!(perms_valid(0, 0o104755));
    assert!(!perms_valid(0, 0o100755));
    assert!(!perms_valid(1000, 0o104755));
}

#[test]
fn login_shells_get_dashed_arg0() {
    assert_eq!(login_arg("zsh"), "-zsh");
}

#[test]
fn action_names() {
    assert_eq!(ActionType::ClearCache.as_str(), "clear_cache");
    assert_eq!(ActionType::Login.as_str(), "login_shell");
    assert_eq!(ActionType::Shell.as_str(), "normal_shell");
    assert_eq!(ActionType::RunCommand.as_str(), "run_command");
    assert!(ActionType::ClearCache.rank() < ActionType::Login.rank());
}

#[test]
fn default_security_config() {
    let sec = SecurityConfig::default();
    assert_eq!(sec.timeout, 10);
    assert_eq!(sec.tries, 3);
    assert!(sec.safe_path.is_none());
    let config = Config::default();
    assert!(config.rules.is_empty());
}

#[test]
fn login_env_sets_target_identity() {
    let user = alice();
    let target = root_user();
    let env = Env::login_env(&user, &target, &None, false);
    assert!(env.login);
    assert_eq!(env.set_vars.home, "/root");
    assert_eq!(env.set_vars.user, "root");
    assert_eq!(env.set_vars.logname, "root");
    assert_eq!(env.set_vars.shell, "/bin/sh");
    assert_eq!(env.do_as_uid, 0);
    assert_eq!(env.do_as_gid, 0);
    assert_eq!(env.safe_vars, vec!["TERM", "DISPLAY"]);
}

#[test]
fn non_login_env_keeps_callers_home() {
    let user = alice();
    let target = root_user();
    let path = Some("/usr/bin:/bin".to_string());
    let env = Env::non_login_env(&user, &target, &path, true);
    assert!(!env.login);
    assert!(env.preserve_all);
    assert_eq!(env.set_vars.home, "/home/alice");
    assert_eq!(env.set_vars.shell, "/bin/zsh");
    assert_eq!(env.set_vars.user, "root");
    assert_eq!(env.set_vars.path.as_deref(), Some("/usr/bin:/bin"));
    assert_eq!(env.safe_vars.len(), 8);
}

#[test]
fn env_sanitization_rules() {
    let user = alice();
    let target = root_user();
    let env = Env::process_env(&user, &target, &None, false);
    assert!(env.is_var_valid("TERM"));
    assert!(env.is_var_valid("LANG"));
    assert!(env.is_var_valid("LC_ALL"));
    // with no safe path configured, the caller's PATH survives
    assert!(env.is_var_valid("PATH"));
    assert!(!env.is_var_valid("LD_PRELOAD"));
    let fixed = Env::process_env(&user, &target, &Some("/bin".to_string()), false);
    assert!(!fixed.is_var_valid("PATH"));
    let vars = vec![
        ("TERM".to_string(), "xterm".to_string()),
        ("LD_PRELOAD".to_string(), "evil.so".to_string()),
        ("LC_TIME".to_string(), "C".to_string()),
        ("IFS".to_string(), "x".to_string()),
    ];
    assert_eq!(env.vars_to_remove(&vars), vec!["LD_PRELOAD", "IFS"]);
    let vars2 = Vars::login(&target, &None);
    assert_eq!(vars2.home, "/root");
}

#[test]
fn error_tags() {
    let e = Error::new(ErrorKind::Exec, "could not replace the process");
    assert_eq!(e.kind.as_str(), "EXEC");
    assert_eq!(e.message, "could not replace the process");
    assert_eq!(ErrorKind::System(13).as_str(), "SYSTEM");
    assert_eq!(ErrorKind::NoUser.as_str(), "NO_USER");
}

#[test]
fn confirmation_state() {
    let mut c = Confirmation::default().with_prompt("Continue?");
    assert!(!c.selected);
    assert_eq!(c.prompt, "Continue?");
    c.change_select();
    assert!(c.selected);
    c.change_select();
    assert!(!c.selected);
}

#[test]
fn retry_notice_wording() {
    assert_eq!(try_word(2), "tries");
    assert_eq!(try_word(1), "try");
    assert!(matches!(PromptStyle::default(), PromptStyle::Block));
    let out = Output::Stderr;
    assert!(matches!(out, Output::Stderr));
}

#[test]
fn decimal_rendering() {
    assert_eq!(u64_to_dec(0), "0");
    assert_eq!(u64_to_dec(9), "9");
    assert_eq!(u64_to_dec(10), "10");
    assert_eq!(u64_to_dec(18446744073709551615), "18446744073709551615");
    assert_eq!(i64_to_dec(-1), "-1");
    assert_eq!(i64_to_dec(i64::MIN), "-9223372036854775808");
    assert_eq!(i64_to_dec(i64::MAX), "9223372036854775807");
}
