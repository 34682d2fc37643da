//! The decisions of the `ProcessUtility` hook.  The hook runs them in two
//! steps: `on_utility_statement` looks at the settings and the statement, and
//! asks for the session user only when an admin bypass is possible;
//! `on_session_user` finishes the decision with the session user's name.
use vstd::prelude::*;
use crate::state::{NoddlModel, NoddlState, opt_str_view, spec_disable, spec_enable, spec_is_admin};
use crate::statement::{
    StatementKind,
    is_admin_bypassable,
    is_blocked_statement,
    spec_admin_bypassable,
    spec_blocked,
    spec_schema_ddl,
};

verus! {

/// What the hook does next.
#[derive(Clone, Copy, Debug, PartialEq, Eq, Structural)]
pub enum HookStep {
    /// Hand the statement on to the next hook or to standard processing.
    Proceed,
    /// Look up the session user's name and pass it to `on_session_user`.
    CheckSessionUser(StatementKind),
    /// Raise the "statement is blocked" error.
    Reject(StatementKind),
}

/// The statement is rejected: blocking is on, the statement is blocked DDL,
/// and it is not admin-bypassable DDL run by the admin user.  `stmt` is
/// `None` for a planned (non-utility) statement, such as DML.
pub open spec fn spec_rejects(
    m: NoddlModel,
    stmt: Option<StatementKind>,
    session_user: Option<Seq<char>>,
) -> bool {
    &&& m.enabled
    &&& stmt is Some
    &&& spec_blocked(stmt->0)
    &&& !(spec_admin_bypassable(stmt->0) && spec_is_admin(m, session_user))
}

/// The first step: proceed unless blocking is on and the statement is blocked
/// DDL; ask for the session user when an admin could bypass it; otherwise
/// reject.
pub open spec fn spec_utility_step(m: NoddlModel, stmt: Option<StatementKind>) -> HookStep {
    match stmt {
        Some(kind) => if m.enabled && spec_blocked(kind) {
            if spec_admin_bypassable(kind) && m.admin_user is Some {
                HookStep::CheckSessionUser(kind)
            } else {
                HookStep::Reject(kind)
            }
        } else {
            HookStep::Proceed
        },
        None => HookStep::Proceed,
    }
}

/// The second step: reject exactly the statements that `spec_rejects` names.
pub open spec fn spec_session_user_step(
    m: NoddlModel,
    kind: StatementKind,
    session_user: Option<Seq<char>>,
) -> HookStep {
    if spec_rejects(m, Some(kind), session_user) {
        HookStep::Reject(kind)
    } else {
        HookStep::Proceed
    }
}

/// The outcome of both steps run in turn.
pub open spec fn spec_hook_outcome(
    m: NoddlModel,
    stmt: Option<StatementKind>,
    session_user: Option<Seq<char>>,
) -> HookStep {
    match spec_utility_step(m, stmt) {
        HookStep::CheckSessionUser(kind) => spec_session_user_step(m, kind, session_user),
        step => step,
    }
}

/// The two hook steps together reject exactly the statements that the rule
/// `spec_rejects` names, and hand every other statement on.
pub proof fn lemma_hook_outcome_is_rule(
    m: NoddlModel,
    stmt: Option<StatementKind>,
    session_user: Option<Seq<char>>,
)
    ensures
        spec_hook_outcome(m, stmt, session_user) == (if spec_rejects(m, stmt, session_user) {
            HookStep::Reject(stmt->0)
        } else {
            HookStep::Proceed
        }),
{
}

/// While blocking is off, and for planned (non-utility) statements such as
/// DML, every statement is handed on.
pub proof fn lemma_disabled_or_dml_proceeds(
    m: NoddlModel,
    stmt: Option<StatementKind>,
    session_user: Option<Seq<char>>,
)
    ensures
        !m.enabled ==> spec_hook_outcome(m, stmt, session_user) == HookStep::Proceed,
        stmt is None ==> spec_hook_outcome(m, stmt, session_user) == HookStep::Proceed,
        spec_hook_outcome(spec_disable(m), stmt, session_user) == HookStep::Proceed,
{
}

/// While blocking is on, schema-changing DDL is rejected for everyone, the
/// admin user included.
pub proof fn lemma_schema_ddl_rejected_for_everyone(
    m: NoddlModel,
    kind: StatementKind,
    session_user: Option<Seq<char>>,
)
    requires
        m.enabled,
        spec_schema_ddl(kind),
    ensures
        spec_hook_outcome(m, Some(kind), session_user) == HookStep::Reject(kind),
{
}

/// While blocking is on, admin-bypassable DDL is handed on exactly when the
/// session user is the configured admin user.
pub proof fn lemma_admin_bypass(
    m: NoddlModel,
    kind: StatementKind,
    session_user: Option<Seq<char>>,
)
    requires
        m.enabled,
        spec_admin_bypassable(kind),
    ensures
        spec_hook_outcome(m, Some(kind), session_user) == (if spec_is_admin(m, session_user) {
            HookStep::Proceed
        } else {
            HookStep::Reject(kind)
        }),
{
}

/// The session user is looked up only when it can change the outcome: for
/// admin-bypassable DDL while blocking is on and an admin user is configured.
pub proof fn lemma_session_user_needed_only_for_bypass(
    m: NoddlModel,
    stmt: Option<StatementKind>,
    kind: StatementKind,
)
    ensures
        spec_utility_step(m, stmt) == HookStep::CheckSessionUser(kind) ==> {
            &&& stmt == Some(kind)
            &&& m.enabled
            &&& spec_admin_bypassable(kind)
            &&& m.admin_user is Some
        },
{
}

/// After plain enabling, every blocked statement is rejected for every
/// session user: no admin bypass survives from an earlier configuration.
pub proof fn lemma_plain_enable_rejects_all_blocked(
    m: NoddlModel,
    kind: StatementKind,
    session_user: Option<Seq<char>>,
)
    requires
        spec_blocked(kind),
    ensures
        spec_hook_outcome(spec_enable(m), Some(kind), session_user) == HookStep::Reject(kind),
{
}

impl NoddlState {
    /// First step of the hook for a statement (`None` for a planned,
    /// non-utility statement).
    pub fn on_utility_statement(&self, stmt: Option<StatementKind>) -> (step: HookStep)
        ensures
            step == spec_utility_step(self@, stmt),
    {
        if !self.is_enabled() {
            return HookStep::Proceed;
        }
        match stmt {
            None => HookStep::Proceed,
            Some(kind) => {
                if !is_blocked_statement(kind) {
                    HookStep::Proceed
                } else if is_admin_bypassable(kind) && self.has_admin_user() {
                    HookStep::CheckSessionUser(kind)
                } else {
                    HookStep::Reject(kind)
                }
            },
        }
    }

    /// Second step of the hook: decides a statement of kind `kind` given the
    /// session user's name (`None` when it could not be found).
    pub fn on_session_user(&self, kind: StatementKind, session_user: Option<&str>) -> (step: HookStep)
        ensures
            step == spec_session_user_step(self@, kind, opt_str_view(session_user)),
    {
        if self.is_enabled() && is_blocked_statement(kind) && !(is_admin_bypassable(kind)
            && self.is_admin_user(session_user)) {
            HookStep::Reject(kind)
        } else {
            HookStep::Proceed
        }
    }
}

/// Publication and subscription management, session and transaction
/// control, maintenance and data statements, and any other utility statement
/// are handed on in every state and for every session user.
pub proof fn lemma_unlisted_statements_proceed(
    m: NoddlModel,
    kind: StatementKind,
    session_user: Option<Seq<char>>,
)
    requires
        kind == StatementKind::CreatePublicationStmt
        || kind == StatementKind::AlterPublicationStmt
        || kind == StatementKind::CreateSubscriptionStmt
        || kind == StatementKind::AlterSubscriptionStmt
        || kind == StatementKind::DropSubscriptionStmt
        || kind == StatementKind::TransactionStmt
        || kind == StatementKind::VariableSetStmt
        || kind == StatementKind::VariableShowStmt
        || kind == StatementKind::VacuumStmt
        || kind == StatementKind::ReindexStmt
        || kind == StatementKind::TruncateStmt
        || kind == StatementKind::CopyStmt
        || kind == StatementKind::ExplainStmt
        || kind == StatementKind::Other,
    ensures
        spec_utility_step(m, Some(kind)) == HookStep::Proceed,
        spec_session_user_step(m, kind, session_user) == HookStep::Proceed,
        spec_hook_outcome(m, Some(kind), session_user) == HookStep::Proceed,
{
}

/// While blocking is on, each of these forty-eight kinds of DDL is rejected
/// for every session user, the admin user included.
pub proof fn lemma_enabled_rejects_listed_ddl(
    m: NoddlModel,
    kind: StatementKind,
    session_user: Option<Seq<char>>,
)
    requires
        m.enabled,
        kind == StatementKind::CreateStmt
        || kind == StatementKind::AlterTableStmt
        || kind == StatementKind::DropStmt
        || kind == StatementKind::IndexStmt
        || kind == StatementKind::CreateSeqStmt
        || kind == StatementKind::AlterSeqStmt
        || kind == StatementKind::CreateSchemaStmt
        || kind == StatementKind::CreateFunctionStmt
        || kind == StatementKind::AlterFunctionStmt
        || kind == StatementKind::ViewStmt
        || kind == StatementKind::CompositeTypeStmt
        || kind == StatementKind::CreateEnumStmt
        || kind == StatementKind::AlterEnumStmt
        || kind == StatementKind::CreateRangeStmt
        || kind == StatementKind::CreateDomainStmt
        || kind == StatementKind::AlterDomainStmt
        || kind == StatementKind::CreateTrigStmt
        || kind == StatementKind::RuleStmt
        || kind == StatementKind::CreatePolicyStmt
        || kind == StatementKind::AlterPolicyStmt
        || kind == StatementKind::RenameStmt
        || kind == StatementKind::AlterObjectSchemaStmt
        || kind == StatementKind::CreatedbStmt
        || kind == StatementKind::DropdbStmt
        || kind == StatementKind::AlterDatabaseStmt
        || kind == StatementKind::AlterDatabaseSetStmt
        || kind == StatementKind::CreateTableSpaceStmt
        || kind == StatementKind::DropTableSpaceStmt
        || kind == StatementKind::CreateFdwStmt
        || kind == StatementKind::AlterFdwStmt
        || kind == StatementKind::CreateForeignServerStmt
        || kind == StatementKind::AlterForeignServerStmt
        || kind == StatementKind::CreateForeignTableStmt
        || kind == StatementKind::CreateUserMappingStmt
        || kind == StatementKind::AlterUserMappingStmt
        || kind == StatementKind::DropUserMappingStmt
        || kind == StatementKind::CreateConversionStmt
        || kind == StatementKind::CreateCastStmt
        || kind == StatementKind::CreateOpClassStmt
        || kind == StatementKind::CreateOpFamilyStmt
        || kind == StatementKind::AlterOpFamilyStmt
        || kind == StatementKind::AlterTSDictionaryStmt
        || kind == StatementKind::CreateEventTrigStmt
        || kind == StatementKind::AlterEventTrigStmt
        || kind == StatementKind::CreateTransformStmt
        || kind == StatementKind::CreateStatsStmt
        || kind == StatementKind::AlterStatsStmt
        || kind == StatementKind::CreateAmStmt,
    ensures
        spec_utility_step(m, Some(kind)) == HookStep::Reject(kind),
        spec_session_user_step(m, kind, session_user) == HookStep::Reject(kind),
        spec_hook_outcome(m, Some(kind), session_user) == HookStep::Reject(kind),
{
}

/// While blocking is on, each of these twelve kinds of DDL is handed on
/// exactly when an admin user is configured and the session user has that
/// name, and rejected otherwise; the session user is asked for only when an
/// admin user is configured.
pub proof fn lemma_enabled_bypass_by_name(
    m: NoddlModel,
    kind: StatementKind,
    session_user: Option<Seq<char>>,
)
    requires
        m.enabled,
        kind == StatementKind::CreateRoleStmt
        || kind == StatementKind::AlterRoleStmt
        || kind == StatementKind::AlterRoleSetStmt
        || kind == StatementKind::DropRoleStmt
        || kind == StatementKind::GrantStmt
        || kind == StatementKind::GrantRoleStmt
        || kind == StatementKind::AlterOwnerStmt
        || kind == StatementKind::CreateExtensionStmt
        || kind == StatementKind::AlterExtensionStmt
        || kind == StatementKind::AlterExtensionContentsStmt
        || kind == StatementKind::CommentStmt
        || kind == StatementKind::SecLabelStmt,
    ensures
        spec_utility_step(m, Some(kind)) == (if m.admin_user is Some {
            HookStep::CheckSessionUser(kind)
        } else {
            HookStep::Reject(kind)
        }),
        spec_session_user_step(m, kind, session_user) == (if m.admin_user is Some
            && session_user == m.admin_user {
            HookStep::Proceed
        } else {
            HookStep::Reject(kind)
        }),
        spec_hook_outcome(m, Some(kind), session_user) == (if m.admin_user is Some
            && session_user == m.admin_user {
            HookStep::Proceed
        } else {
            HookStep::Reject(kind)
        }),
{
}

} // verus!
