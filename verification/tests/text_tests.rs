use pg_noddl::state::NoddlState;
use pg_noddl::text::session_user_name;

#[test]
fn session_user_name_decodes_utf8() {
    assert_eq!(session_user_name(Some("migration_admin".as_bytes())), Some("migration_admin".to_string()));
    assert_eq!(session_user_name(Some("rôle".as_bytes())), Some("rôle".to_string()));
}

#[test]
fn session_user_name_missing_or_invalid() {
    assert_eq!(session_user_name(None), None);
    let invalid: &[u8] = &[0x61, 0xc3, 0x28];
    assert_eq!(session_user_name(Some(invalid)), None);
}

#[test]
fn invalid_name_is_not_a_named_admin() {
    let mut state = NoddlState::new();
    state.enable_with_admin("ops");
    let invalid: &[u8] = &[0x6f, 0x70, 0x73, 0xff];
    let user = session_user_name(Some(invalid));
    assert!(!state.is_admin_user(user.as_deref()));
    let user = session_user_name(Some("ops".as_bytes()));
    assert!(state.is_admin_user(user.as_deref()));
}

#[test]
fn undecodable_name_never_matches_empty_admin() {
    let mut state = NoddlState::new();
    state.enable_with_admin("");
    let invalid: &[u8] = &[0xff];
    let user = session_user_name(Some(invalid));
    assert_eq!(user, None);
    assert!(!state.is_admin_user(user.as_deref()));
    // A LATIN1-encoded "é" is not UTF-8 either.
    let latin1: &[u8] = &[0x72, 0xe9];
    assert!(!state.is_admin_user(session_user_name(Some(latin1)).as_deref()));
}
