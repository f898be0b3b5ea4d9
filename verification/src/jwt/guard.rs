//! The role guard: whether a caller may pass an endpoint that declares a
//! minimum role.

use vstd::prelude::*;
use crate::jwt::auth::TokenRole;
use crate::server::response::{
    error_body, lemma_plain_text_is_quoted, needs_escape, Rejection, Status,
};

verus! {

/// Why the guard turned a caller away.
#[derive(Debug, Clone, Copy, PartialEq, Eq, Structural)]
pub enum AuthorizationError {
    /// The caller's role does not pass the declared minimum.
    Denied,
    /// The declared minimum is no role name.
    RoleUnknown,
}

/// The policy table, one row for each declared minimum:
/// a `Guest` endpoint admits guests and nobody else; an `Admin` endpoint
/// admits every caller; a `User` endpoint, or one with the default role,
/// admits every caller but administrators.
pub open spec fn admits(required: TokenRole, caller: TokenRole) -> bool {
    match required {
        TokenRole::Guest => caller == TokenRole::Guest,
        TokenRole::Admin => true,
        TokenRole::User | TokenRole::DefaultTokenRole => caller != TokenRole::Admin,
    }
}

/// The guard's decision for a caller's role and the name of the declared
/// minimum.
pub open spec fn decision(caller: TokenRole, required: Seq<char>) -> Result<(), AuthorizationError> {
    match TokenRole::parse(required) {
        None => Err(AuthorizationError::RoleUnknown),
        Some(minimum) => if admits(minimum, caller) {
            Ok(())
        } else {
            Err(AuthorizationError::Denied)
        },
    }
}

/// The role that a caller's role name stands for in the guard: the role it
/// names, and the default role where it names none.
pub open spec fn resolved(caller_role: Seq<char>) -> TokenRole {
    match TokenRole::parse(caller_role) {
        Some(role) => role,
        None => TokenRole::DefaultTokenRole,
    }
}

impl TokenRole {
    /// Whether an endpoint that declares `self` as its minimum admits a
    /// caller of the given role.
    pub fn admits(self, caller: TokenRole) -> (allowed: bool)
        ensures
            allowed == admits(self, caller),
    {
        match self {
            TokenRole::Guest => caller == TokenRole::Guest,
            TokenRole::Admin => true,
            TokenRole::User | TokenRole::DefaultTokenRole => caller != TokenRole::Admin,
        }
    }

    /// The role that a caller's role name stands for in the guard.
    pub fn resolve(caller_role: &str) -> (role: TokenRole)
        ensures
            role == resolved(caller_role@),
    {
        match TokenRole::from_str(caller_role) {
            Ok(role) => role,
            Err(_) => TokenRole::DefaultTokenRole,
        }
    }
}

/// Decides whether a caller of role `caller` passes an endpoint whose
/// declared minimum is named `required`.
pub fn role(caller: TokenRole, required: &str) -> (outcome: Result<(), AuthorizationError>)
    ensures
        outcome == decision(caller, required@),
{
    match TokenRole::from_str(required) {
        Err(_) => Err(AuthorizationError::RoleUnknown),
        Ok(minimum) => {
            if minimum.admits(caller) {
                Ok(())
            } else {
                Err(AuthorizationError::Denied)
            }
        },
    }
}

/// Decides for a caller whose role is known by name, as an identity carries
/// it.
pub fn role_by_name(caller_role: &str, required: &str) -> (outcome: Result<(), AuthorizationError>)
    ensures
        outcome == decision(resolved(caller_role@), required@),
{
    role(TokenRole::resolve(caller_role), required)
}

impl AuthorizationError {
    pub open spec fn spec_status(self) -> Status {
        match self {
            AuthorizationError::Denied => Status::Forbidden,
            AuthorizationError::RoleUnknown => Status::NotFound,
        }
    }

    /// The status that the error is answered with.
    #[verifier::when_used_as_spec(spec_status)]
    pub fn status(self) -> (status: Status)
        ensures
            status == self.spec_status(),
    {
        match self {
            AuthorizationError::Denied => Status::Forbidden,
            AuthorizationError::RoleUnknown => Status::NotFound,
        }
    }

    /// The sentence that the error is answered with.
    pub open spec fn message_text(self) -> Seq<char> {
        match self {
            AuthorizationError::Denied => "Access Denied"@,
            AuthorizationError::RoleUnknown => "Token role not found"@,
        }
    }

    /// The body that the error is answered with.
    pub open spec fn body_text(self) -> Seq<char> {
        match self {
            AuthorizationError::Denied => "{\"error\":\"Access Denied\"}"@,
            AuthorizationError::RoleUnknown => "{\"error\":\"Token role not found\"}"@,
        }
    }

    /// The rejection sent to the caller: the status and `{"error":<sentence>}`.
    pub fn rejection(self) -> (rejection: Rejection)
        ensures
            rejection.status == self.spec_status(),
            rejection.body@ == error_body(self.message_text()),
            rejection.body@ == self.body_text(),
    {
        proof {
            lemma_error_bodies(self);
        }
        match self {
            AuthorizationError::Denied => Rejection::with_error(Status::Forbidden, "Access Denied"),
            AuthorizationError::RoleUnknown => Rejection::with_error(
                Status::NotFound,
                "Token role not found",
            ),
        }
    }
}

/// The body of an error is its sentence in a JSON object, written out: the
/// sentences hold nothing that JSON escapes.
pub proof fn lemma_error_bodies(error: AuthorizationError)
    ensures
        error_body(error.message_text()) == error.body_text(),
{
    reveal_strlit("{\"error\":");
    reveal_strlit("}");
    match error {
        AuthorizationError::Denied => {
            reveal_strlit("Access Denied");
            reveal_strlit("{\"error\":\"Access Denied\"}");
            let text = "Access Denied"@;
            assert forall|i: int| 0 <= i < text.len() implies !needs_escape(#[trigger] text[i]) by {
                assert(text.len() == 13);
            }
            lemma_plain_text_is_quoted(text);
            assert(error_body(text) =~= "{\"error\":\"Access Denied\"}"@);
        },
        AuthorizationError::RoleUnknown => {
            reveal_strlit("Token role not found");
            reveal_strlit("{\"error\":\"Token role not found\"}");
            let text = "Token role not found"@;
            assert forall|i: int| 0 <= i < text.len() implies !needs_escape(#[trigger] text[i]) by {
                assert(text.len() == 20);
            }
            lemma_plain_text_is_quoted(text);
            assert(error_body(text) =~= "{\"error\":\"Token role not found\"}"@);
        },
    }
}

/// An endpoint that asks for `Admin` turns nobody away.
pub proof fn lemma_admin_minimum_admits_all(caller: TokenRole)
    ensures
        decision(caller, "Admin"@) == Ok::<(), AuthorizationError>(()),
{
}

/// An endpoint that asks for `Guest` lets guests pass and denies everybody
/// else.
pub proof fn lemma_guest_minimum_admits_guests_only(caller: TokenRole)
    ensures
        decision(caller, "Guest"@) == if caller == TokenRole::Guest {
            Ok::<(), AuthorizationError>(())
        } else {
            Err::<(), AuthorizationError>(AuthorizationError::Denied)
        },
{
    reveal_strlit("Admin");
    reveal_strlit("User");
    reveal_strlit("Guest");
    assert("Guest"@[0] == 'G' && "Admin"@[0] == 'A' && "User"@[0] == 'U');
}

/// An endpoint that asks for `User` denies administrators and lets
/// everybody else pass.
pub proof fn lemma_user_minimum_denies_admins_only(caller: TokenRole)
    ensures
        decision(caller, "User"@) == if caller == TokenRole::Admin {
            Err::<(), AuthorizationError>(AuthorizationError::Denied)
        } else {
            Ok::<(), AuthorizationError>(())
        },
{
    reveal_strlit("Admin");
    reveal_strlit("User");
    assert("Admin"@[0] == 'A' && "User"@[0] == 'U');
}

/// A declared minimum that is no role name is answered with `RoleUnknown`,
/// whoever calls; and `RoleUnknown` is the answer to nothing else.
pub proof fn lemma_unknown_minimum(caller: TokenRole, required: Seq<char>)
    ensures
        decision(caller, required) == Err::<(), AuthorizationError>(AuthorizationError::RoleUnknown)
            <==> required != "Admin"@ && required != "User"@ && required != "Guest"@,
{
}

} // verus!
