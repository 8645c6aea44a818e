use udo::cache::get_cache_id;
use udo::user::{get_root_user, get_user, get_user_by_id, UserIdentity};

#[test]
fn root_resolves() {
    // any sane system resolves uid 0; the record matches the query
    let root = get_user_by_id(0).expect("uid 0 must resolve");
    assert_eq!(root.uid, 0);
    let by_name = get_root_user().expect("the root identity must resolve");
    assert!(by_name.name == "root" || by_name.uid == 0);
    let via_get_user = get_user("root").expect("the root identity must resolve");
    assert!(via_get_user.name == "root" || via_get_user.uid == 0);
}

#[test]
fn missing_users_resolve_to_none() {
    assert!(get_user("no_such_user_udo_test").is_none());
}

#[test]
fn cache_id_carries_the_uid() {
    let user = UserIdentity {
        name: "alice".to_string(),
        uid: 1000,
        primary_gid: 1000,
        home: "/home/alice".to_string(),
        shell: "/bin/sh".to_string(),
    };
    // with no controlling terminal there is no session id at all;
    // with one, it is "uid-tty-ppid"
    match get_cache_id(&user) {
        Some(id) => assert!(id.starts_with("1000-")),
        None => {}
    }
}
