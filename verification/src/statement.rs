//! Classification of utility statements: which ones are DDL that the
//! extension blocks, which of those an admin user may still run, and the
//! human-readable name used in error messages.
use vstd::prelude::*;

verus! {

/// The kind of a utility statement, named after the parse-tree node that
/// PostgreSQL hands to the `ProcessUtility` hook.  Every node kind that the
/// blocking rules mention has its own variant; any other utility node is
/// `Other`.
#[derive(Clone, Copy, Debug, PartialEq, Eq, Structural)]
pub enum StatementKind {
    // Table DDL
    CreateStmt,
    AlterTableStmt,
    DropStmt,
    // Index DDL
    IndexStmt,
    // Sequence DDL
    CreateSeqStmt,
    AlterSeqStmt,
    // Schema DDL
    CreateSchemaStmt,
    // Function / procedure DDL
    CreateFunctionStmt,
    AlterFunctionStmt,
    // View DDL
    ViewStmt,
    // Type DDL
    CompositeTypeStmt,
    CreateEnumStmt,
    AlterEnumStmt,
    CreateRangeStmt,
    CreateDomainStmt,
    AlterDomainStmt,
    // Trigger and rule DDL
    CreateTrigStmt,
    RuleStmt,
    // Row-level security policies
    CreatePolicyStmt,
    AlterPolicyStmt,
    // Extensions
    CreateExtensionStmt,
    AlterExtensionStmt,
    AlterExtensionContentsStmt,
    // Roles
    CreateRoleStmt,
    AlterRoleStmt,
    AlterRoleSetStmt,
    DropRoleStmt,
    // Permissions
    GrantStmt,
    GrantRoleStmt,
    // Ownership, renames, schema moves
    AlterOwnerStmt,
    RenameStmt,
    AlterObjectSchemaStmt,
    // Databases
    CreatedbStmt,
    DropdbStmt,
    AlterDatabaseStmt,
    AlterDatabaseSetStmt,
    // Tablespaces
    CreateTableSpaceStmt,
    DropTableSpaceStmt,
    // Foreign data
    CreateFdwStmt,
    AlterFdwStmt,
    CreateForeignServerStmt,
    AlterForeignServerStmt,
    CreateForeignTableStmt,
    CreateUserMappingStmt,
    AlterUserMappingStmt,
    DropUserMappingStmt,
    // Conversions and casts
    CreateConversionStmt,
    CreateCastStmt,
    // Operators
    CreateOpClassStmt,
    CreateOpFamilyStmt,
    AlterOpFamilyStmt,
    // Text search
    AlterTSDictionaryStmt,
    // Event triggers
    CreateEventTrigStmt,
    AlterEventTrigStmt,
    // Transforms, statistics, access methods
    CreateTransformStmt,
    CreateStatsStmt,
    AlterStatsStmt,
    CreateAmStmt,
    // Metadata
    CommentStmt,
    SecLabelStmt,
    // Replication management (never blocked)
    CreatePublicationStmt,
    AlterPublicationStmt,
    CreateSubscriptionStmt,
    AlterSubscriptionStmt,
    DropSubscriptionStmt,
    // Session, transaction and maintenance statements (never blocked)
    TransactionStmt,
    VariableSetStmt,
    VariableShowStmt,
    VacuumStmt,
    ReindexStmt,
    TruncateStmt,
    CopyStmt,
    ExplainStmt,
    /// Any other utility statement.
    Other,
}

/// DDL that an admin user may run while blocking is on: role management,
/// permissions, ownership, extension management, comments and security
/// labels.  None of it changes table data or structure, and all of it can be
/// applied to the target by hand.
pub open spec fn spec_admin_bypassable(kind: StatementKind) -> bool {
    match kind {
        StatementKind::CreateRoleStmt
        | StatementKind::AlterRoleStmt
        | StatementKind::AlterRoleSetStmt
        | StatementKind::DropRoleStmt
        | StatementKind::GrantStmt
        | StatementKind::GrantRoleStmt
        | StatementKind::AlterOwnerStmt
        | StatementKind::CreateExtensionStmt
        | StatementKind::AlterExtensionStmt
        | StatementKind::AlterExtensionContentsStmt
        | StatementKind::CommentStmt
        | StatementKind::SecLabelStmt => true,
        _ => false,
    }
}

/// DDL that changes the schema and that nobody may run while blocking is on.
pub open spec fn spec_schema_ddl(kind: StatementKind) -> bool {
    match kind {
        StatementKind::CreateStmt
        | StatementKind::AlterTableStmt
        | StatementKind::DropStmt
        | StatementKind::IndexStmt
        | StatementKind::CreateSeqStmt
        | StatementKind::AlterSeqStmt
        | StatementKind::CreateSchemaStmt
        | StatementKind::CreateFunctionStmt
        | StatementKind::AlterFunctionStmt
        | StatementKind::ViewStmt
        | StatementKind::CompositeTypeStmt
        | StatementKind::CreateEnumStmt
        | StatementKind::AlterEnumStmt
        | StatementKind::CreateRangeStmt
        | StatementKind::CreateDomainStmt
        | StatementKind::AlterDomainStmt
        | StatementKind::CreateTrigStmt
        | StatementKind::RuleStmt
        | StatementKind::CreatePolicyStmt
        | StatementKind::AlterPolicyStmt
        | StatementKind::RenameStmt
        | StatementKind::AlterObjectSchemaStmt
        | StatementKind::CreatedbStmt
        | StatementKind::DropdbStmt
        | StatementKind::AlterDatabaseStmt
        | StatementKind::AlterDatabaseSetStmt
        | StatementKind::CreateTableSpaceStmt
        | StatementKind::DropTableSpaceStmt
        | StatementKind::CreateFdwStmt
        | StatementKind::AlterFdwStmt
        | StatementKind::CreateForeignServerStmt
        | StatementKind::AlterForeignServerStmt
        | StatementKind::CreateForeignTableStmt
        | StatementKind::CreateUserMappingStmt
        | StatementKind::AlterUserMappingStmt
        | StatementKind::DropUserMappingStmt
        | StatementKind::CreateConversionStmt
        | StatementKind::CreateCastStmt
        | StatementKind::CreateOpClassStmt
        | StatementKind::CreateOpFamilyStmt
        | StatementKind::AlterOpFamilyStmt
        | StatementKind::AlterTSDictionaryStmt
        | StatementKind::CreateEventTrigStmt
        | StatementKind::AlterEventTrigStmt
        | StatementKind::CreateTransformStmt
        | StatementKind::CreateStatsStmt
        | StatementKind::AlterStatsStmt
        | StatementKind::CreateAmStmt => true,
        _ => false,
    }
}

/// A statement is blocked when it is schema DDL or admin-bypassable DDL:
/// everything else (DML, maintenance, session and transaction control,
/// publication and subscription management) passes.
pub open spec fn spec_blocked(kind: StatementKind) -> bool {
    spec_schema_ddl(kind) || spec_admin_bypassable(kind)
}

/// Statements that manage the migration's logical replication itself.
pub open spec fn spec_replication_management(kind: StatementKind) -> bool {
    match kind {
        StatementKind::CreatePublicationStmt
        | StatementKind::AlterPublicationStmt
        | StatementKind::CreateSubscriptionStmt
        | StatementKind::AlterSubscriptionStmt
        | StatementKind::DropSubscriptionStmt => true,
        _ => false,
    }
}

/// Session, transaction, maintenance and data statements.
pub open spec fn spec_operational(kind: StatementKind) -> bool {
    match kind {
        StatementKind::TransactionStmt
        | StatementKind::VariableSetStmt
        | StatementKind::VariableShowStmt
        | StatementKind::VacuumStmt
        | StatementKind::ReindexStmt
        | StatementKind::TruncateStmt
        | StatementKind::CopyStmt
        | StatementKind::ExplainStmt => true,
        _ => false,
    }
}

/// Returns true if an admin user may run this statement while blocking is on.
pub fn is_admin_bypassable(kind: StatementKind) -> (b: bool)
    ensures
        b == spec_admin_bypassable(kind),
{
    match kind {
        StatementKind::CreateRoleStmt => true,
        StatementKind::AlterRoleStmt => true,
        StatementKind::AlterRoleSetStmt => true,
        StatementKind::DropRoleStmt => true,
        StatementKind::GrantStmt => true,
        StatementKind::GrantRoleStmt => true,
        StatementKind::AlterOwnerStmt => true,
        StatementKind::CreateExtensionStmt => true,
        StatementKind::AlterExtensionStmt => true,
        StatementKind::AlterExtensionContentsStmt => true,
        StatementKind::CommentStmt => true,
        StatementKind::SecLabelStmt => true,
        _ => false,
    }
}

/// Returns true if the statement is DDL that blocking rejects (a blocklist:
/// everything not named here is allowed).
pub fn is_blocked_statement(kind: StatementKind) -> (b: bool)
    ensures
        b == spec_blocked(kind),
{
    match kind {
        StatementKind::CreateStmt
        | StatementKind::AlterTableStmt
        | StatementKind::DropStmt
        | StatementKind::IndexStmt
        | StatementKind::CreateSeqStmt
        | StatementKind::AlterSeqStmt
        | StatementKind::CreateSchemaStmt
        | StatementKind::CreateFunctionStmt
        | StatementKind::AlterFunctionStmt
        | StatementKind::ViewStmt
        | StatementKind::CompositeTypeStmt
        | StatementKind::CreateEnumStmt
        | StatementKind::AlterEnumStmt
        | StatementKind::CreateRangeStmt
        | StatementKind::CreateDomainStmt
        | StatementKind::AlterDomainStmt
        | StatementKind::CreateTrigStmt
        | StatementKind::RuleStmt
        | StatementKind::CreatePolicyStmt
        | StatementKind::AlterPolicyStmt
        | StatementKind::CreateExtensionStmt
        | StatementKind::AlterExtensionStmt
        | StatementKind::AlterExtensionContentsStmt
        | StatementKind::CreateRoleStmt
        | StatementKind::AlterRoleStmt
        | StatementKind::AlterRoleSetStmt
        | StatementKind::DropRoleStmt
        | StatementKind::GrantStmt
        | StatementKind::GrantRoleStmt
        | StatementKind::AlterOwnerStmt
        | StatementKind::RenameStmt
        | StatementKind::AlterObjectSchemaStmt
        | StatementKind::CreatedbStmt
        | StatementKind::DropdbStmt
        | StatementKind::AlterDatabaseStmt
        | StatementKind::AlterDatabaseSetStmt
        | StatementKind::CreateTableSpaceStmt
        | StatementKind::DropTableSpaceStmt
        | StatementKind::CreateFdwStmt
        | StatementKind::AlterFdwStmt
        | StatementKind::CreateForeignServerStmt
        | StatementKind::AlterForeignServerStmt
        | StatementKind::CreateForeignTableStmt
        | StatementKind::CreateUserMappingStmt
        | StatementKind::AlterUserMappingStmt
        | StatementKind::DropUserMappingStmt
        | StatementKind::CreateConversionStmt
        | StatementKind::CreateCastStmt
        | StatementKind::CreateOpClassStmt
        | StatementKind::CreateOpFamilyStmt
        | StatementKind::AlterOpFamilyStmt
        | StatementKind::AlterTSDictionaryStmt
        | StatementKind::CreateEventTrigStmt
        | StatementKind::AlterEventTrigStmt
        | StatementKind::CreateTransformStmt
        | StatementKind::CreateStatsStmt
        | StatementKind::AlterStatsStmt
        | StatementKind::CreateAmStmt
        | StatementKind::CommentStmt
        | StatementKind::SecLabelStmt => true,
        _ => false,
    }
}

/// The name under which a statement is reported when it is blocked.
pub open spec fn spec_statement_name(kind: StatementKind) -> Seq<char> {
    match kind {
        StatementKind::CreateStmt => "CREATE TABLE"@,
        StatementKind::AlterTableStmt => "ALTER TABLE"@,
        StatementKind::DropStmt => "DROP"@,
        StatementKind::IndexStmt => "CREATE INDEX"@,
        StatementKind::CreateSeqStmt => "CREATE SEQUENCE"@,
        StatementKind::AlterSeqStmt => "ALTER SEQUENCE"@,
        StatementKind::CreateSchemaStmt => "CREATE SCHEMA"@,
        StatementKind::CreateFunctionStmt => "CREATE FUNCTION"@,
        StatementKind::AlterFunctionStmt => "ALTER FUNCTION"@,
        StatementKind::ViewStmt => "CREATE VIEW"@,
        StatementKind::CreateTrigStmt => "CREATE TRIGGER"@,
        StatementKind::RuleStmt => "CREATE RULE"@,
        StatementKind::GrantStmt => "GRANT/REVOKE"@,
        StatementKind::GrantRoleStmt => "GRANT ROLE"@,
        StatementKind::CreateRoleStmt => "CREATE ROLE"@,
        StatementKind::AlterRoleStmt => "ALTER ROLE"@,
        StatementKind::DropRoleStmt => "DROP ROLE"@,
        StatementKind::RenameStmt => "RENAME"@,
        StatementKind::CommentStmt => "COMMENT"@,
        StatementKind::AlterOwnerStmt => "ALTER OWNER"@,
        StatementKind::CreatedbStmt => "CREATE DATABASE"@,
        StatementKind::DropdbStmt => "DROP DATABASE"@,
        StatementKind::AlterDatabaseStmt => "ALTER DATABASE"@,
        StatementKind::CompositeTypeStmt => "CREATE TYPE"@,
        StatementKind::CreateEnumStmt => "CREATE TYPE (enum)"@,
        StatementKind::CreateDomainStmt => "CREATE DOMAIN"@,
        StatementKind::AlterDomainStmt => "ALTER DOMAIN"@,
        StatementKind::CreateExtensionStmt => "CREATE EXTENSION"@,
        StatementKind::AlterExtensionStmt => "ALTER EXTENSION"@,
        StatementKind::CreatePublicationStmt => "CREATE PUBLICATION"@,
        StatementKind::AlterPublicationStmt => "ALTER PUBLICATION"@,
        StatementKind::CreateSubscriptionStmt => "CREATE SUBSCRIPTION"@,
        StatementKind::AlterSubscriptionStmt => "ALTER SUBSCRIPTION"@,
        _ => "DDL statement"@,
    }
}

/// Returns a human-readable name for the statement, or "DDL statement" for
/// kinds without a name of their own.
pub fn statement_name(kind: StatementKind) -> (name: &'static str)
    ensures
        name@ == spec_statement_name(kind),
{
    match kind {
        StatementKind::CreateStmt => "CREATE TABLE",
        StatementKind::AlterTableStmt => "ALTER TABLE",
        StatementKind::DropStmt => "DROP",
        StatementKind::IndexStmt => "CREATE INDEX",
        StatementKind::CreateSeqStmt => "CREATE SEQUENCE",
        StatementKind::AlterSeqStmt => "ALTER SEQUENCE",
        StatementKind::CreateSchemaStmt => "CREATE SCHEMA",
        StatementKind::CreateFunctionStmt => "CREATE FUNCTION",
        StatementKind::AlterFunctionStmt => "ALTER FUNCTION",
        StatementKind::ViewStmt => "CREATE VIEW",
        StatementKind::CreateTrigStmt => "CREATE TRIGGER",
        StatementKind::RuleStmt => "CREATE RULE",
        StatementKind::GrantStmt => "GRANT/REVOKE",
        StatementKind::GrantRoleStmt => "GRANT ROLE",
        StatementKind::CreateRoleStmt => "CREATE ROLE",
        StatementKind::AlterRoleStmt => "ALTER ROLE",
        StatementKind::DropRoleStmt => "DROP ROLE",
        StatementKind::RenameStmt => "RENAME",
        StatementKind::CommentStmt => "COMMENT",
        StatementKind::AlterOwnerStmt => "ALTER OWNER",
        StatementKind::CreatedbStmt => "CREATE DATABASE",
        StatementKind::DropdbStmt => "DROP DATABASE",
        StatementKind::AlterDatabaseStmt => "ALTER DATABASE",
        StatementKind::CompositeTypeStmt => "CREATE TYPE",
        StatementKind::CreateEnumStmt => "CREATE TYPE (enum)",
        StatementKind::CreateDomainStmt => "CREATE DOMAIN",
        StatementKind::AlterDomainStmt => "ALTER DOMAIN",
        StatementKind::CreateExtensionStmt => "CREATE EXTENSION",
        StatementKind::AlterExtensionStmt => "ALTER EXTENSION",
        StatementKind::CreatePublicationStmt => "CREATE PUBLICATION",
        StatementKind::AlterPublicationStmt => "ALTER PUBLICATION",
        StatementKind::CreateSubscriptionStmt => "CREATE SUBSCRIPTION",
        StatementKind::AlterSubscriptionStmt => "ALTER SUBSCRIPTION",
        _ => "DDL statement",
    }
}

/// Every statement that an admin may run while blocking is on is itself a
/// blocked statement: the admin bypass only ever loosens the blocklist.
pub proof fn lemma_bypassable_is_blocked(kind: StatementKind)
    ensures
        spec_admin_bypassable(kind) ==> spec_blocked(kind),
{
}

/// Replication management (publications, subscriptions), session and
/// transaction control, maintenance and data statements, and every utility
/// statement outside the blocklist, are never blocked.
pub proof fn lemma_operational_statements_pass(kind: StatementKind)
    ensures
        spec_replication_management(kind) ==> !spec_blocked(kind),
        spec_operational(kind) ==> !spec_blocked(kind),
        kind == StatementKind::Other ==> !spec_blocked(kind),
{
}

/// The blocklist, by name: exactly these sixty kinds of statement are
/// blocked, and every other kind (publication and subscription management,
/// session and transaction control, maintenance, data statements and any
/// other utility statement) is not.
pub proof fn lemma_blocklist_by_name(kind: StatementKind)
    ensures
        spec_blocked(kind) <==> (
            kind == StatementKind::CreateStmt
            || kind == StatementKind::AlterTableStmt
            || kind == StatementKind::DropStmt
            || kind == StatementKind::IndexStmt
            || kind == StatementKind::CreateSeqStmt
            || kind == StatementKind::AlterSeqStmt
            || kind == StatementKind::CreateSchemaStmt
            || kind == StatementKind::CreateFunctionStmt
            || kind == StatementKind::AlterFunctionStmt
            || kind == StatementKind::ViewStmt
            || kind == StatementKind::CompositeTypeStmt
            || kind == StatementKind::CreateEnumStmt
            || kind == StatementKind::AlterEnumStmt
            || kind == StatementKind::CreateRangeStmt
            || kind == StatementKind::CreateDomainStmt
            || kind == StatementKind::AlterDomainStmt
            || kind == StatementKind::CreateTrigStmt
            || kind == StatementKind::RuleStmt
            || kind == StatementKind::CreatePolicyStmt
            || kind == StatementKind::AlterPolicyStmt
            || kind == StatementKind::CreateExtensionStmt
            || kind == StatementKind::AlterExtensionStmt
            || kind == StatementKind::AlterExtensionContentsStmt
            || kind == StatementKind::CreateRoleStmt
            || kind == StatementKind::AlterRoleStmt
            || kind == StatementKind::AlterRoleSetStmt
            || kind == StatementKind::DropRoleStmt
            || kind == StatementKind::GrantStmt
            || kind == StatementKind::GrantRoleStmt
            || kind == StatementKind::AlterOwnerStmt
            || kind == StatementKind::RenameStmt
            || kind == StatementKind::AlterObjectSchemaStmt
            || kind == StatementKind::CreatedbStmt
            || kind == StatementKind::DropdbStmt
            || kind == StatementKind::AlterDatabaseStmt
            || kind == StatementKind::AlterDatabaseSetStmt
            || kind == StatementKind::CreateTableSpaceStmt
            || kind == StatementKind::DropTableSpaceStmt
            || kind == StatementKind::CreateFdwStmt
            || kind == StatementKind::AlterFdwStmt
            || kind == StatementKind::CreateForeignServerStmt
            || kind == StatementKind::AlterForeignServerStmt
            || kind == StatementKind::CreateForeignTableStmt
            || kind == StatementKind::CreateUserMappingStmt
            || kind == StatementKind::AlterUserMappingStmt
            || kind == StatementKind::DropUserMappingStmt
            || kind == StatementKind::CreateConversionStmt
            || kind == StatementKind::CreateCastStmt
            || kind == StatementKind::CreateOpClassStmt
            || kind == StatementKind::CreateOpFamilyStmt
            || kind == StatementKind::AlterOpFamilyStmt
            || kind == StatementKind::AlterTSDictionaryStmt
            || kind == StatementKind::CreateEventTrigStmt
            || kind == StatementKind::AlterEventTrigStmt
            || kind == StatementKind::CreateTransformStmt
            || kind == StatementKind::CreateStatsStmt
            || kind == StatementKind::AlterStatsStmt
            || kind == StatementKind::CreateAmStmt
            || kind == StatementKind::CommentStmt
            || kind == StatementKind::SecLabelStmt
        ),
{
}

/// The admin-bypass list, by name: exactly these twelve kinds of statement
/// may be run by the admin user; every other kind, renames and schema moves
/// included, may not.
pub proof fn lemma_bypass_list_by_name(kind: StatementKind)
    ensures
        spec_admin_bypassable(kind) <==> (
            kind == StatementKind::CreateRoleStmt
            || kind == StatementKind::AlterRoleStmt
            || kind == StatementKind::AlterRoleSetStmt
            || kind == StatementKind::DropRoleStmt
            || kind == StatementKind::GrantStmt
            || kind == StatementKind::GrantRoleStmt
            || kind == StatementKind::AlterOwnerStmt
            || kind == StatementKind::CreateExtensionStmt
            || kind == StatementKind::AlterExtensionStmt
            || kind == StatementKind::AlterExtensionContentsStmt
            || kind == StatementKind::CommentStmt
            || kind == StatementKind::SecLabelStmt
        ),
{
}

} // verus!
