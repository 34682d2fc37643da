use pg_noddl::hook::HookStep;
use pg_noddl::message::blocked_statement_message;
use pg_noddl::state::NoddlState;
use pg_noddl::statement::StatementKind;
use pg_noddl::text::session_user_name;

/// Runs both hook steps the way the extension does.
fn outcome(state: &NoddlState, stmt: Option<StatementKind>, session_user: Option<&str>) -> HookStep {
    match state.on_utility_statement(stmt) {
        HookStep::CheckSessionUser(kind) => state.on_session_user(kind, session_user),
        step => step,
    }
}

#[test]
fn test_allowed_statements_when_enabled() {
    let mut state = NoddlState::new();
    state.enable();
    // SELECT 1 is a planned statement, SET and SHOW are utility statements.
    assert_eq!(state.on_utility_statement(None), HookStep::Proceed);
    assert_eq!(state.on_utility_statement(Some(StatementKind::VariableSetStmt)), HookStep::Proceed);
    assert_eq!(state.on_utility_statement(Some(StatementKind::VariableShowStmt)), HookStep::Proceed);
    state.disable();
}

#[test]
fn test_admin_bypass_grant() {
    let mut state = NoddlState::new();
    state.enable_with_admin("postgres");
    // CREATE ROLE is admin-bypassable.
    assert_eq!(state.on_utility_statement(Some(StatementKind::CreateRoleStmt)), HookStep::CheckSessionUser(StatementKind::CreateRoleStmt));
    assert_eq!(state.on_session_user(StatementKind::CreateRoleStmt, Some("postgres")), HookStep::Proceed);
    // GRANT is admin-bypassable too.
    assert_eq!(outcome(&state, Some(StatementKind::GrantStmt), Some("postgres")), HookStep::Proceed);
    state.disable();
}

#[test]
fn test_admin_cannot_bypass_table_ddl() {
    let mut state = NoddlState::new();
    state.enable_with_admin("postgres");
    let step = outcome(&state, Some(StatementKind::CreateStmt), Some("postgres"));
    assert_eq!(step, HookStep::Reject(StatementKind::CreateStmt));
    let msg = blocked_statement_message(StatementKind::CreateStmt, Some("CREATE TABLE test_admin_table (id int)".as_bytes()));
    assert!(msg.contains("pg_noddl"));
}

#[test]
fn disabled_blocking_lets_everything_through() {
    let state = NoddlState::new();
    for kind in [StatementKind::CreateStmt, StatementKind::DropStmt, StatementKind::GrantStmt, StatementKind::CreateRoleStmt, StatementKind::RenameStmt] {
        assert_eq!(state.on_utility_statement(Some(kind)), HookStep::Proceed);
        assert_eq!(state.on_session_user(kind, Some("anyone")), HookStep::Proceed);
    }
}

#[test]
fn blocked_ddl_rejected_without_admin() {
    let mut state = NoddlState::new();
    state.enable();
    // No admin configured: bypassable DDL is rejected without asking for the user.
    assert_eq!(state.on_utility_statement(Some(StatementKind::GrantStmt)), HookStep::Reject(StatementKind::GrantStmt));
    assert_eq!(state.on_utility_statement(Some(StatementKind::AlterTableStmt)), HookStep::Reject(StatementKind::AlterTableStmt));
    assert_eq!(state.on_utility_statement(Some(StatementKind::TruncateStmt)), HookStep::Proceed);
    assert_eq!(state.on_utility_statement(Some(StatementKind::CreatePublicationStmt)), HookStep::Proceed);
}

#[test]
fn other_users_cannot_bypass() {
    let mut state = NoddlState::new();
    state.enable_with_admin("migration_admin");
    assert_eq!(outcome(&state, Some(StatementKind::CreateRoleStmt), Some("app_user")), HookStep::Reject(StatementKind::CreateRoleStmt));
    assert_eq!(outcome(&state, Some(StatementKind::CommentStmt), None), HookStep::Reject(StatementKind::CommentStmt));
    assert_eq!(outcome(&state, Some(StatementKind::CommentStmt), Some("migration_admin")), HookStep::Proceed);
    assert_eq!(outcome(&state, Some(StatementKind::ViewStmt), Some("migration_admin")), HookStep::Reject(StatementKind::ViewStmt));
}

#[test]
fn after_disable_everything_proceeds() {
    let mut state = NoddlState::new();
    state.enable_with_admin("migration_admin");
    state.disable();
    assert_eq!(outcome(&state, Some(StatementKind::CreateStmt), Some("migration_admin")), HookStep::Proceed);
    assert_eq!(outcome(&state, Some(StatementKind::GrantStmt), Some("other")), HookStep::Proceed);
}

#[test]
fn plain_enable_after_admin_rejects_bypassable_ddl() {
    let mut state = NoddlState::new();
    state.enable_with_admin("ops");
    assert_eq!(outcome(&state, Some(StatementKind::GrantStmt), Some("ops")), HookStep::Proceed);
    state.enable();
    assert_eq!(
        state.on_utility_statement(Some(StatementKind::GrantStmt)),
        HookStep::Reject(StatementKind::GrantStmt)
    );
    assert_eq!(outcome(&state, Some(StatementKind::GrantStmt), Some("ops")), HookStep::Reject(StatementKind::GrantStmt));
}

#[test]
fn empty_admin_name_bypasses_nothing_for_unreadable_names() {
    let mut state = NoddlState::new();
    state.enable_with_admin("");
    let invalid: &[u8] = &[0xff];
    let user = session_user_name(Some(invalid));
    assert_eq!(outcome(&state, Some(StatementKind::GrantStmt), user.as_deref()), HookStep::Reject(StatementKind::GrantStmt));
    assert_eq!(outcome(&state, Some(StatementKind::GrantStmt), None), HookStep::Reject(StatementKind::GrantStmt));
}
