//! The extension's settings: whether DDL blocking is on, and which user (if
//! any) may still run admin-bypassable DDL.
use vstd::prelude::*;

verus! {

/// What the settings hold, as plain values.
pub struct NoddlModel {
    pub enabled: bool,
    pub admin_user: Option<Seq<char>>,
}

/// The view of an optional owned string.
pub open spec fn opt_string_view(s: Option<String>) -> Option<Seq<char>> {
    match s {
        Some(t) => Some(t@),
        None => None,
    }
}

/// The view of an optional string slice.
pub open spec fn opt_str_view(s: Option<&str>) -> Option<Seq<char>> {
    match s {
        Some(t) => Some(t@),
        None => None,
    }
}

/// Settings when the extension is loaded: blocking off, no admin user.
pub open spec fn spec_initial() -> NoddlModel {
    NoddlModel { enabled: false, admin_user: None }
}

/// `pg_noddl_enable()`: blocking on for everyone; no admin user remains, so
/// all blocked DDL is rejected.
pub open spec fn spec_enable(m: NoddlModel) -> NoddlModel {
    NoddlModel { enabled: true, admin_user: None }
}

/// `pg_noddl_enable_with_admin(name)`: blocking on, `name` is the admin user.
pub open spec fn spec_enable_with_admin(m: NoddlModel, name: Seq<char>) -> NoddlModel {
    NoddlModel { enabled: true, admin_user: Some(name) }
}

/// `pg_noddl_disable()`: blocking off and the admin user cleared.
pub open spec fn spec_disable(m: NoddlModel) -> NoddlModel {
    NoddlModel { enabled: false, admin_user: None }
}

/// The session user is the configured admin user: an admin is configured,
/// the session user's name is known, and the two names are equal.
pub open spec fn spec_is_admin(m: NoddlModel, session_user: Option<Seq<char>>) -> bool {
    &&& m.admin_user is Some
    &&& session_user is Some
    &&& m.admin_user->0 == session_user->0
}

/// Disabling returns the settings to those at load time, whatever they were:
/// blocking is off and no admin user remains.
pub proof fn lemma_disable_resets(m: NoddlModel)
    ensures
        spec_disable(m) == spec_initial(),
        !spec_disable(m).enabled,
        spec_disable(m).admin_user is None,
{
}

/// Enabling turns blocking on; plain enabling leaves no admin user, whatever
/// was configured before, and enabling with an admin names exactly that user.
pub proof fn lemma_enable_sets_flag(m: NoddlModel, name: Seq<char>)
    ensures
        spec_enable(m).enabled,
        spec_enable(m).admin_user is None,
        spec_enable_with_admin(m, name).enabled,
        spec_enable_with_admin(m, name).admin_user == Some(name),
{
}

/// Without a configured admin user nobody is the admin; with one, exactly the
/// session user of that name is.
pub proof fn lemma_admin_identity(m: NoddlModel, session_user: Option<Seq<char>>)
    ensures
        m.admin_user is None ==> !spec_is_admin(m, session_user),
        session_user is None ==> !spec_is_admin(m, session_user),
        m.admin_user is Some && session_user == m.admin_user ==> spec_is_admin(m, session_user),
{
}

/// The extension's settings.
pub struct NoddlState {
    enabled: bool,
    admin_user: Option<String>,
}

impl View for NoddlState {
    type V = NoddlModel;

    closed spec fn view(&self) -> NoddlModel {
        NoddlModel { enabled: self.enabled, admin_user: opt_string_view(self.admin_user) }
    }
}

/// Whether naming `admin_username` as admin requires checking first that the
/// role exists: it does for every non-empty name.
pub fn needs_role_check(admin_username: &str) -> (b: bool)
    ensures
        b == (admin_username@.len() > 0),
{
    !admin_username.is_empty()
}

impl NoddlState {
    /// The settings at load time: blocking off, no admin user.
    pub fn new() -> (s: Self)
        ensures
            s@ == spec_initial(),
    {
        NoddlState { enabled: false, admin_user: None }
    }

    /// Turns DDL blocking on for everyone and clears any admin user.
    pub fn enable(&mut self) -> (r: bool)
        ensures
            r,
            final(self)@ == spec_enable(old(self)@),
    {
        self.admin_user = None;
        self.enabled = true;
        true
    }

    /// Turns DDL blocking on with `admin_username` as the admin user.  The
    /// caller checks first that the role exists (see `needs_role_check`).
    pub fn enable_with_admin(&mut self, admin_username: &str) -> (r: bool)
        ensures
            r,
            final(self)@ == spec_enable_with_admin(old(self)@, admin_username@),
    {
        self.admin_user = Some(admin_username.to_owned());
        self.enabled = true;
        true
    }

    /// Turns DDL blocking off and clears the admin user.
    pub fn disable(&mut self) -> (r: bool)
        ensures
            r,
            final(self)@ == spec_disable(old(self)@),
    {
        self.enabled = false;
        self.admin_user = None;
        true
    }

    /// Whether DDL blocking is on.
    pub fn is_enabled(&self) -> (b: bool)
        ensures
            b == self@.enabled,
    {
        self.enabled
    }

    /// The configured admin user, if any.
    pub fn admin_user(&self) -> (u: Option<String>)
        ensures
            opt_string_view(u) == self@.admin_user,
    {
        match &self.admin_user {
            Some(name) => Some(name.clone()),
            None => None,
        }
    }

    /// Whether an admin user is configured.
    pub fn has_admin_user(&self) -> (b: bool)
        ensures
            b == self@.admin_user is Some,
    {
        self.admin_user.is_some()
    }

    /// Whether the session user is the configured admin user.  `session_user`
    /// is `None` when the session user's name could not be found or read, and
    /// then it never matches.
    pub fn is_admin_user(&self, session_user: Option<&str>) -> (b: bool)
        ensures
            b == spec_is_admin(self@, opt_str_view(session_user)),
    {
        match (&self.admin_user, session_user) {
            (Some(admin), Some(user)) => {
                let user_owned: String = user.to_owned();
                *admin == user_owned
            },
            _ => false,
        }
    }
}

} // verus!
