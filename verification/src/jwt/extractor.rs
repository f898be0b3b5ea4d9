//! The identity of a caller, derived from stored credentials or from a
//! bearer token.
//!
//! Reading the request and consulting the user directory are the host's
//! work. The decisions between those steps are made here: which of the two
//! sources a request calls for, and what each answer of the host amounts to.

use vstd::prelude::*;
use crate::jwt::auth::{
    accepted_identity, identity_of, identity_view, jwt_auth, reported_for, ClaimsView, TokenError,
};
use crate::jwt::signing::DecodeFailure;
use crate::server::response::{code_body, Rejection, Status};

verus! {

/// The credentials that a request may carry as query parameters.
#[derive(Debug, Clone, PartialEq, Eq)]
pub struct BasicAuth {
    pub client_id: Option<String>,
    pub client_secret: Option<String>,
}

impl Default for BasicAuth {
    fn default() -> (query: BasicAuth)
        ensures
            query.client_id is None,
            query.client_secret is None,
    {
        BasicAuth { client_id: None, client_secret: None }
    }
}

/// The identity of a caller: id, name, email and role.
#[derive(Debug, Clone, PartialEq, Eq)]
pub struct AuthToken(pub u128, pub String, pub String, pub String);

impl View for AuthToken {
    type V = (u128, Seq<char>, Seq<char>, Seq<char>);

    open spec fn view(&self) -> (u128, Seq<char>, Seq<char>, Seq<char>) {
        (self.0, self.1@, self.2@, self.3@)
    }
}

impl Default for AuthToken {
    fn default() -> (identity: AuthToken)
        ensures
            identity@ == (0u128, Seq::<char>::empty(), Seq::<char>::empty(), Seq::<char>::empty()),
    {
        AuthToken(0, String::new(), String::new(), String::new())
    }
}

/// Where the identity of a request is to come from.
#[derive(Debug, Clone, PartialEq, Eq)]
pub enum CredentialSource {
    /// The user directory, asked for the one user with this pair.
    Directory { client_id: String, client_secret: String },
    /// The bearer token of the `Authorization` header.
    Bearer,
}

/// What the host learnt from the user directory.
#[derive(Debug, Clone, PartialEq, Eq)]
pub enum DirectoryReply {
    /// The connection to the directory is not at hand.
    Unavailable(String),
    /// The query, or the reading of a column, failed.
    Failed(String),
    /// The users whose stored pair equals the one asked for.
    Rows(Vec<AuthToken>),
}

/// Why no identity could be derived from a request.
#[derive(Debug, Clone, Copy, PartialEq, Eq, Structural)]
pub enum ExtractionError {
    /// The query parameters or the bearer header could not be read.
    MissingCredentials,
    /// The directory holds no user, or more than one, for the pair, or the
    /// lookup failed.
    DatastoreLookupFailed,
    /// The connection to the directory is not at hand.
    DownstreamUnavailable,
    /// The bearer token was not accepted.
    TokenRejected(TokenError),
}

impl ExtractionError {
    pub open spec fn spec_status(self) -> Status {
        match self {
            ExtractionError::DownstreamUnavailable => Status::Unavailable,
            _ => Status::NotFound,
        }
    }

    /// The status that the error is answered with: 500 where the directory
    /// is unavailable, 404 for every failure of the credentials themselves.
    #[verifier::when_used_as_spec(spec_status)]
    pub fn status(self) -> (status: Status)
        ensures
            status == self.spec_status(),
    {
        match self {
            ExtractionError::DownstreamUnavailable => Status::Unavailable,
            _ => Status::NotFound,
        }
    }
}

/// A failed extraction: its kind, and the detail that the caller is told.
#[derive(Debug, Clone, PartialEq, Eq)]
pub struct ExtractionFailure {
    pub kind: ExtractionError,
    pub detail: String,
}

impl View for ExtractionFailure {
    type V = (ExtractionError, Seq<char>);

    open spec fn view(&self) -> (ExtractionError, Seq<char>) {
        (self.kind, self.detail@)
    }
}

impl ExtractionFailure {
    /// The rejection sent to the caller: the status of the kind, and
    /// `{"code":<status>,"body":<detail>}`.
    pub fn rejection(&self) -> (rejection: Rejection)
        ensures
            rejection.status == self.kind.spec_status(),
            rejection.body@ == code_body(self.kind.spec_status(), self.detail@),
    {
        Rejection::with_code(self.kind.status(), self.detail.as_str())
    }
}

/// The outcome of an extraction as plain values.
pub open spec fn outcome_view(outcome: Result<AuthToken, ExtractionFailure>) -> Result<
    (u128, Seq<char>, Seq<char>, Seq<char>),
    (ExtractionError, Seq<char>),
> {
    match outcome {
        Ok(identity) => Ok(identity@),
        Err(failure) => Err(failure@),
    }
}

/// The source that a request's parameters call for: the directory where
/// both the client id and the client secret are given, the bearer token
/// otherwise.
pub open spec fn source_of(query: BasicAuth) -> CredentialSource {
    match (query.client_id, query.client_secret) {
        (Some(client_id), Some(client_secret)) => CredentialSource::Directory {
            client_id,
            client_secret,
        },
        _ => CredentialSource::Bearer,
    }
}

/// The detail told where the directory returned no user.
pub open spec fn no_match_text() -> Seq<char> {
    "RowNotFound"@
}

/// The detail told where the directory returned several users.
pub open spec fn ambiguous_match_text() -> Seq<char> {
    "more than one user matches the credentials"@
}

/// What precedes the host's detail where the directory is not at hand.
pub open spec fn unavailable_prefix() -> Seq<char> {
    "BUG: ApiContext was not added as an extension "@
}

/// What a reply of the directory amounts to: the one user found, or the
/// failure in its place.
pub open spec fn directory_outcome(reply: DirectoryReply) -> Result<
    (u128, Seq<char>, Seq<char>, Seq<char>),
    (ExtractionError, Seq<char>),
> {
    match reply {
        DirectoryReply::Unavailable(detail) => Err(
            (ExtractionError::DownstreamUnavailable, unavailable_prefix() + detail@),
        ),
        DirectoryReply::Failed(detail) => Err((ExtractionError::DatastoreLookupFailed, detail@)),
        DirectoryReply::Rows(rows) => if rows@.len() == 1 {
            Ok(rows@[0]@)
        } else if rows@.len() == 0 {
            Err((ExtractionError::DatastoreLookupFailed, no_match_text()))
        } else {
            Err((ExtractionError::DatastoreLookupFailed, ambiguous_match_text()))
        },
    }
}

/// What a verified bearer token amounts to: the identity of its claims with
/// an empty name, or the token's error with its sentence as the detail.
pub open spec fn identity_outcome(identity: Result<(u128, Seq<char>, Seq<char>), TokenError>) -> Result<
    (u128, Seq<char>, Seq<char>, Seq<char>),
    (ExtractionError, Seq<char>),
> {
    match identity {
        Ok(id) => Ok((id.0, Seq::empty(), id.1, id.2)),
        Err(error) => Err((ExtractionError::TokenRejected(error), error.message_text())),
    }
}

/// Of all that the directory may reply, only its absence is answered with
/// status 500: every other failure of the stored-credential path is a
/// failed lookup, answered with 404.
pub proof fn lemma_directory_failures(reply: DirectoryReply)
    ensures
        directory_outcome(reply) matches Err(failure) ==> {
            &&& failure.0 == ExtractionError::DownstreamUnavailable <==> reply is Unavailable
            &&& failure.0 == ExtractionError::DatastoreLookupFailed <==> !(reply is Unavailable)
            &&& failure.0.spec_status() == Status::Unavailable <==> reply is Unavailable
        },
        directory_outcome(reply) is Ok <==> (reply matches DirectoryReply::Rows(rows)
            && rows@.len() == 1),
{
}

/// A failure of the bearer-token path is answered with 404, whatever the
/// token's fault.
pub proof fn lemma_token_failures(identity: Result<(u128, Seq<char>, Seq<char>), TokenError>)
    ensures
        identity_outcome(identity) matches Err(failure) ==> failure.0.spec_status()
            == Status::NotFound,
        identity_outcome(identity) matches Ok(found) ==> found.1.len() == 0,
{
}

impl BasicAuth {
    /// Chooses the source of the identity.
    pub fn source(self) -> (source: CredentialSource)
        ensures
            source == source_of(self),
    {
        match (self.client_id, self.client_secret) {
            (Some(client_id), Some(client_secret)) => CredentialSource::Directory {
                client_id,
                client_secret,
            },
            _ => CredentialSource::Bearer,
        }
    }
}

impl AuthToken {
    /// First step: the host has read the query parameters, or reports why
    /// it could not. Says where the identity is to come from.
    pub fn begin(query: Result<BasicAuth, String>) -> (step: Result<CredentialSource, ExtractionFailure>)
        ensures
            match query {
                Ok(parameters) => step == Ok::<CredentialSource, ExtractionFailure>(
                    source_of(parameters),
                ),
                Err(detail) => step matches Err(failure) && failure@ == (
                    ExtractionError::MissingCredentials,
                    detail@,
                ),
            },
    {
        match query {
            Ok(parameters) => Ok(parameters.source()),
            Err(detail) => Err(
                ExtractionFailure { kind: ExtractionError::MissingCredentials, detail },
            ),
        }
    }

    /// Stored-credential path: the host has asked the directory for the
    /// users with the given pair. Exactly one user is the identity; none,
    /// several, or a failed lookup is `DatastoreLookupFailed`; a directory
    /// that is not at hand is `DownstreamUnavailable`.
    pub fn from_directory(reply: DirectoryReply) -> (outcome: Result<AuthToken, ExtractionFailure>)
        ensures
            outcome_view(outcome) == directory_outcome(reply),
    {
        match reply {
            DirectoryReply::Unavailable(detail) => {
                let text = "BUG: ApiContext was not added as an extension ".to_owned().concat(
                    detail.as_str(),
                );
                Err(ExtractionFailure { kind: ExtractionError::DownstreamUnavailable, detail: text })
            },
            DirectoryReply::Failed(detail) => Err(
                ExtractionFailure { kind: ExtractionError::DatastoreLookupFailed, detail },
            ),
            DirectoryReply::Rows(rows) => {
                let mut rows = rows;
                let found = rows.len();
                match rows.pop() {
                    Some(user) if found == 1 => Ok(user),
                    Some(_) => Err(
                        ExtractionFailure {
                            kind: ExtractionError::DatastoreLookupFailed,
                            detail: "more than one user matches the credentials".to_owned(),
                        },
                    ),
                    None => Err(
                        ExtractionFailure {
                            kind: ExtractionError::DatastoreLookupFailed,
                            detail: "RowNotFound".to_owned(),
                        },
                    ),
                }
            },
        }
    }

    /// What a verified token amounts to: the identity of its claims, with an
    /// empty name since a token carries none, or `TokenRejected`.
    pub fn from_identity(identity: Result<(u128, String, String), TokenError>) -> (outcome: Result<
        AuthToken,
        ExtractionFailure,
    >)
        ensures
            outcome_view(outcome) == identity_outcome(identity_view(identity)),
    {
        match identity {
            Ok((user_id, email, role)) => Ok(AuthToken(user_id, String::new(), email, role)),
            Err(error) => Err(
                ExtractionFailure {
                    kind: ExtractionError::TokenRejected(error),
                    detail: error.message(),
                },
            ),
        }
    }

    /// Bearer-token path: the host has read the token of the `Authorization`
    /// header, or reports why it could not. Without a token the credentials
    /// are missing. A token is verified, which consults the system clock, so
    /// whether it is accepted is not a function of the token alone: the
    /// outcome is what [`AuthToken::from_identity`] makes of the
    /// verification of this token. An identity that comes back is that of
    /// the token's own claims, with an empty name, an email and a role.
    pub fn from_bearer(header: Result<String, String>) -> (outcome: Result<AuthToken, ExtractionFailure>)
        ensures
            match header {
                Err(detail) => outcome matches Err(failure) && failure@ == (
                    ExtractionError::MissingCredentials,
                    detail@,
                ),
                Ok(token) => {
                    &&& exists|decoded: Result<ClaimsView, DecodeFailure>|
                        #[trigger] reported_for(token@, decoded) && outcome_view(outcome)
                            == identity_outcome(identity_of(decoded))
                    &&& match outcome {
                        Ok(identity) => accepted_identity(token@) == Some(
                            (identity.0, identity.2@, identity.3@),
                        ) && identity.1@.len() == 0 && identity.2@.len() > 0
                            && identity.3@.len() > 0,
                        Err(failure) => failure.kind matches ExtractionError::TokenRejected(error)
                            && failure.detail@ == error.message_text(),
                    }
                },
            },
    {
        match header {
            Err(detail) => Err(
                ExtractionFailure { kind: ExtractionError::MissingCredentials, detail },
            ),
            Ok(token) => AuthToken::from_identity(jwt_auth(token.as_str())),
        }
    }
}

} // verus!
