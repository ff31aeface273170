//! Role-based command authorization: a pure policy over (role set, command).
use vstd::prelude::*;
use crate::text::str_eq;

verus! {

/// A user's role. The role set of a user is a small closed enumeration;
/// `Admin` is a superuser allowed every command.
#[derive(Debug, Clone, Copy, PartialEq, Eq, Hash, Structural)]
pub enum Role {
    User,
    Admin,
}

/// The fixed allow-list of commands granted to the `User` role.
pub open spec fn is_user_allowed_command(command: Seq<char>) -> bool {
    ||| command == "/start"@
    ||| command == "/find_match"@
    ||| command == "/profile"@
    ||| command == "/help"@
}

/// The authorization policy: `Admin` may run everything; `User` may run
/// exactly the fixed allow-list; an empty or unrecognized role set may run
/// nothing.
pub open spec fn allow_spec(roles: Seq<Role>, command: Seq<char>) -> bool {
    ||| roles.contains(Role::Admin)
    ||| (roles.contains(Role::User) && is_user_allowed_command(command))
}

/// The fixed set of operational commands restricted to administrators,
/// used for help/UI classification (not as the authorization source of
/// truth).
pub open spec fn is_admin_only_command(command: Seq<char>) -> bool {
    ||| command == "/admin_settings"@
    ||| command == "/view_users"@
    ||| command == "/bot_status"@
}

pub struct RBACService {}

pub fn roles_contain(roles: &[Role], role: Role) -> (found: bool)
    ensures
        found == roles@.contains(role),
{
    let mut i: usize = 0;
    while i < roles.len()
        invariant
            0 <= i <= roles@.len(),
            forall|j: int| 0 <= j < i ==> roles@[j] != role,
        decreases roles@.len() - i,
    {
        if roles[i] == role {
            return true;
        }
        i += 1;
    }
    false
}

impl RBACService {
    pub fn new() -> (service: Self) {
        RBACService {  }
    }

    /// Pure authorization decision; no side effects, no I/O.
    pub fn check_permission(&self, user_roles: &[Role], command: &str) -> (allowed: bool)
        ensures
            allowed == allow_spec(user_roles@, command@),
    {
        if roles_contain(user_roles, Role::Admin) {
            return true;
        }
        if roles_contain(user_roles, Role::User) {
            return str_eq(command, "/start") || str_eq(command, "/find_match") || str_eq(
                command,
                "/profile",
            ) || str_eq(command, "/help");
        }
        false
    }

    /// Classifies the fixed set of admin-restricted operational commands.
    pub fn is_admin_command(&self, command: &str) -> (restricted: bool)
        ensures
            restricted == is_admin_only_command(command@),
    {
        str_eq(command, "/admin_settings") || str_eq(command, "/view_users") || str_eq(
            command,
            "/bot_status",
        )
    }
}

impl Default for RBACService {
    fn default() -> (service: Self)
        ensures
            service == (RBACService {  }),
    {
        Self::new()
    }
}

/// Law: a role set containing `Admin` is allowed every command; otherwise a
/// command is allowed exactly when the set contains `User` and the command is
/// on the fixed user allow-list; in particular a role set with neither role
/// is denied everything.
pub proof fn lemma_authorization_policy(roles: Seq<Role>, command: Seq<char>)
    ensures
        roles.contains(Role::Admin) ==> allow_spec(roles, command),
        !roles.contains(Role::Admin) ==> (allow_spec(roles, command) <==> (roles.contains(
            Role::User,
        ) && is_user_allowed_command(command))),
        !roles.contains(Role::Admin) && !roles.contains(Role::User) ==> !allow_spec(
            roles,
            command,
        ),
{
}

} // verus!
