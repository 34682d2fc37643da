use pg_noddl::statement::{is_admin_bypassable, is_blocked_statement, statement_name, StatementKind};

#[test]
fn test_blocklist() {
    // Allowed statements (not in blocklist)
    assert!(!is_blocked_statement(StatementKind::TransactionStmt));
    assert!(!is_blocked_statement(StatementKind::VariableSetStmt));
    assert!(!is_blocked_statement(StatementKind::VacuumStmt));
    assert!(!is_blocked_statement(StatementKind::TruncateStmt));
    assert!(!is_blocked_statement(StatementKind::CopyStmt));
    assert!(!is_blocked_statement(StatementKind::ExplainStmt));

    // Blocked statements (in blocklist)
    assert!(is_blocked_statement(StatementKind::CreateStmt));
    assert!(is_blocked_statement(StatementKind::AlterTableStmt));
    assert!(is_blocked_statement(StatementKind::DropStmt));
    assert!(is_blocked_statement(StatementKind::IndexStmt));
    assert!(is_blocked_statement(StatementKind::GrantStmt));
    assert!(is_blocked_statement(StatementKind::CreateRoleStmt));
}

#[test]
fn test_admin_bypassable() {
    // Admin-bypassable statements
    assert!(is_admin_bypassable(StatementKind::CreateRoleStmt));
    assert!(is_admin_bypassable(StatementKind::AlterRoleStmt));
    assert!(is_admin_bypassable(StatementKind::DropRoleStmt));
    assert!(is_admin_bypassable(StatementKind::GrantStmt));
    assert!(is_admin_bypassable(StatementKind::GrantRoleStmt));
    assert!(is_admin_bypassable(StatementKind::AlterOwnerStmt));
    assert!(is_admin_bypassable(StatementKind::CreateExtensionStmt));
    assert!(is_admin_bypassable(StatementKind::AlterExtensionStmt));
    assert!(is_admin_bypassable(StatementKind::CommentStmt));

    // NOT admin-bypassable (schema-changing DDL)
    assert!(!is_admin_bypassable(StatementKind::CreateStmt));
    assert!(!is_admin_bypassable(StatementKind::AlterTableStmt));
    assert!(!is_admin_bypassable(StatementKind::DropStmt));
    assert!(!is_admin_bypassable(StatementKind::IndexStmt));
    assert!(!is_admin_bypassable(StatementKind::CreateFunctionStmt));
    assert!(!is_admin_bypassable(StatementKind::ViewStmt));
}

#[test]
fn replication_management_is_never_blocked() {
    for kind in [
        StatementKind::CreatePublicationStmt,
        StatementKind::AlterPublicationStmt,
        StatementKind::CreateSubscriptionStmt,
        StatementKind::AlterSubscriptionStmt,
        StatementKind::DropSubscriptionStmt,
    ] {
        assert!(!is_blocked_statement(kind));
        assert!(!is_admin_bypassable(kind));
    }
}

#[test]
fn maintenance_and_session_statements_are_not_blocked() {
    for kind in [StatementKind::VariableShowStmt, StatementKind::ReindexStmt, StatementKind::Other] {
        assert!(!is_blocked_statement(kind));
    }
}

#[test]
fn documented_ddl_categories_are_blocked() {
    for kind in [
        StatementKind::CreateStmt,
        StatementKind::AlterTableStmt,
        StatementKind::DropStmt,
        StatementKind::IndexStmt,
        StatementKind::CompositeTypeStmt,
        StatementKind::CreateDomainStmt,
        StatementKind::CreateEnumStmt,
        StatementKind::CreateFunctionStmt,
        StatementKind::AlterFunctionStmt,
        StatementKind::ViewStmt,
        StatementKind::CreateTrigStmt,
        StatementKind::CreateSchemaStmt,
        StatementKind::CreateRoleStmt,
        StatementKind::AlterRoleStmt,
        StatementKind::DropRoleStmt,
        StatementKind::GrantStmt,
        StatementKind::CreateExtensionStmt,
        StatementKind::AlterExtensionStmt,
        StatementKind::CreateSeqStmt,
        StatementKind::RenameStmt,
        StatementKind::CreatedbStmt,
        StatementKind::SecLabelStmt,
        StatementKind::CreateAmStmt,
    ] {
        assert!(is_blocked_statement(kind));
    }
}

#[test]
fn every_bypassable_statement_is_blocked() {
    for kind in [
        StatementKind::CreateRoleStmt,
        StatementKind::AlterRoleStmt,
        StatementKind::AlterRoleSetStmt,
        StatementKind::DropRoleStmt,
        StatementKind::GrantStmt,
        StatementKind::GrantRoleStmt,
        StatementKind::AlterOwnerStmt,
        StatementKind::CreateExtensionStmt,
        StatementKind::AlterExtensionStmt,
        StatementKind::AlterExtensionContentsStmt,
        StatementKind::CommentStmt,
        StatementKind::SecLabelStmt,
    ] {
        assert!(is_admin_bypassable(kind));
        assert!(is_blocked_statement(kind));
    }
}

#[test]
fn statement_names() {
    assert_eq!(statement_name(StatementKind::CreateStmt), "CREATE TABLE");
    assert_eq!(statement_name(StatementKind::AlterTableStmt), "ALTER TABLE");
    assert_eq!(statement_name(StatementKind::DropStmt), "DROP");
    assert_eq!(statement_name(StatementKind::IndexStmt), "CREATE INDEX");
    assert_eq!(statement_name(StatementKind::GrantStmt), "GRANT/REVOKE");
    assert_eq!(statement_name(StatementKind::CreateEnumStmt), "CREATE TYPE (enum)");
    assert_eq!(statement_name(StatementKind::CreateSubscriptionStmt), "CREATE SUBSCRIPTION");
    assert_eq!(statement_name(StatementKind::CreateRangeStmt), "DDL statement");
    assert_eq!(statement_name(StatementKind::Other), "DDL statement");
}
