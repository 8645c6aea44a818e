use udo::backend::TestBackend;
use udo::elevate::{ElevatedContext, PrivMode};
use udo::error::ErrorKind;
use udo::UdoReturn;

#[test]
fn set_euid() {
    let mut backend = TestBackend::default();
    // We should be able to seteuid to the uid
    let uid = backend.getuid();
    backend.seteuid(uid).unwrap();
    // And then switch back to root because its in suid
    backend.seteuid(0).unwrap();
}

#[test]
fn set_uid() {
    let mut backend = TestBackend::default();

    // As soon as we setuid to the uid, we should no longer have permissions to switch out our
    // uid
    let uid = backend.getuid();
    backend.setuid(uid).unwrap();
    assert!(backend.seteuid(0).is_err());
}

// This test serves to both test the `is_root` function and also
// provides a more broad test of uid behaviour
#[test]
fn is_root() {
    let mut backend = TestBackend::default();
    // Store the initial value of uid for use later
    let uid = backend.getuid();
    assert!(backend.is_root());

    let u = backend.getuid();
    backend.seteuid(u).unwrap();
    assert!(!backend.is_root());

    backend.seteuid(0).unwrap();
    assert!(backend.is_root());

    let e = backend.geteuid();
    backend.setuid(e).unwrap();
    assert!(backend.is_root());

    backend.setuid(uid).unwrap();
    assert!(!backend.is_root());
}

#[test]
fn elevate_restore_model() {
    let mut backend = TestBackend::default();
    // drop to the real user, then elevate and restore through the model
    let u = backend.getuid();
    backend.seteuid(u).unwrap();
    backend.elevate().unwrap();
    assert_eq!(backend.geteuid(), 0);
    backend.restore().unwrap();
    assert_eq!(backend.geteuid(), 512);
}

#[test]
fn switch_final_is_irrevocable() {
    let mut backend = TestBackend::default();
    backend.switch_final().unwrap();
    // the target was root here, so every id collapsed to 0
    assert_eq!(backend.getuid(), 0);
    assert_eq!(backend.geteuid(), 0);
    // a backend targeting a plain user loses the right to return to root
    let mut other = TestBackend {
        target: 512,
        ..TestBackend::default()
    };
    other.switch_final().unwrap();
    assert_eq!(other.getuid(), 512);
    assert!(other.seteuid(0).is_err());
}

#[test]
fn setgid_rules() {
    let mut backend = TestBackend::default();
    // effectively root, so any gid change is allowed
    backend.setgid(100).unwrap();
    assert_eq!(backend.getgid(), 100);
    // after dropping root entirely, foreign gids are refused
    let uid = backend.getuid();
    backend.setuid(uid).unwrap();
    let err = backend.setgid(0).unwrap_err();
    assert!(matches!(err.kind, ErrorKind::GidSet));
    let uid_err = backend.setuid(0).unwrap_err();
    assert!(matches!(uid_err.kind, ErrorKind::UidSet));
}

#[test]
fn restore_when_not_elevated_is_noop() {
    let mut ctx = ElevatedContext::new(512);
    assert!(matches!(ctx.mode, PrivMode::Unprivileged));
    // no syscall happens here: the manager is not elevated
    let r = ctx.restore();
    assert!(r.is_ok());
    assert!(matches!(ctx.mode, PrivMode::Unprivileged));
    assert_eq!(ctx.original, 512);
    // and again: still a no-op
    assert!(ctx.restore().is_ok());
    assert!(matches!(ctx.mode, PrivMode::Unprivileged));
}

#[test]
fn exit_code_categories_are_distinct() {
    let codes = [
        UdoReturn::NoError.code(),
        UdoReturn::GenericError.code(),
        UdoReturn::CacheFailure.code(),
        UdoReturn::ElevateFailure.code(),
        UdoReturn::AuthenticateFailure.code(),
    ];
    assert_eq!(codes, [0, 1, 2, 3, 4]);
}
