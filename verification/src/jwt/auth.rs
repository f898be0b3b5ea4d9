//! Session tokens and the roles they carry.

use vstd::prelude::*;
use crate::jwt::signing::{
    accepted_payload, current_timestamp, decode_token, failure_kind, sign_claims, signed_claims,
    DecodeFailure,
};

verus! {

/// The symmetric secret that tokens are signed and checked with.
pub const SIGNING_SECRET: &'static str = "promoflix";

/// Seconds an access token stays valid after it is issued: seven days.
pub const ACCESS_LIFETIME: u64 = 7 * 86_400;

/// Seconds a refresh token stays valid after it is issued: thirty days.
pub const REFRESH_LIFETIME: u64 = 30 * 86_400;

/// The role tiers. `DefaultTokenRole` stands for "no role stated"; on the
/// wire it is written like `User`.
#[derive(Debug, Clone, Copy, PartialEq, Eq, Structural)]
pub enum TokenRole {
    Admin,
    User,
    Guest,
    DefaultTokenRole,
}

impl Default for TokenRole {
    fn default() -> (r: TokenRole)
        ensures
            r == TokenRole::DefaultTokenRole,
    {
        TokenRole::DefaultTokenRole
    }
}

/// Whether two string slices hold the same text.
fn same_text(a: &str, b: &str) -> (r: bool)
    ensures
        r == (a@ == b@),
{
    a.to_owned() == b.to_owned()
}

impl TokenRole {
    /// The role that a name denotes, if any. Names are case-sensitive, and
    /// `DefaultTokenRole` has no name of its own.
    pub open spec fn parse(name: Seq<char>) -> Option<TokenRole> {
        if name == "Admin"@ {
            Some(TokenRole::Admin)
        } else if name == "User"@ {
            Some(TokenRole::User)
        } else if name == "Guest"@ {
            Some(TokenRole::Guest)
        } else {
            None
        }
    }

    /// The name of a role, as it is shown.
    pub open spec fn name_text(self) -> Seq<char> {
        match self {
            TokenRole::Admin => "Admin"@,
            TokenRole::User => "User"@,
            TokenRole::Guest => "Guest"@,
            TokenRole::DefaultTokenRole => "DefaultTokenRole"@,
        }
    }

    /// The name of a role, as it is written on the wire. The default role
    /// is written like `User`.
    pub open spec fn wire_text(self) -> Seq<char> {
        match self {
            TokenRole::Admin => "admin"@,
            TokenRole::User => "user"@,
            TokenRole::Guest => "guest"@,
            TokenRole::DefaultTokenRole => "user"@,
        }
    }

    /// Shows the role by its name.
    pub fn to_string(&self) -> (name: String)
        ensures
            name@ == self.name_text(),
    {
        match self {
            TokenRole::Admin => "Admin".to_owned(),
            TokenRole::User => "User".to_owned(),
            TokenRole::Guest => "Guest".to_owned(),
            TokenRole::DefaultTokenRole => "DefaultTokenRole".to_owned(),
        }
    }

    /// The name under which the role is written on the wire.
    pub fn wire_name(&self) -> (name: &'static str)
        ensures
            name@ == self.wire_text(),
    {
        match self {
            TokenRole::Admin => "admin",
            TokenRole::User => "user",
            TokenRole::Guest => "guest",
            TokenRole::DefaultTokenRole => "user",
        }
    }

    /// Parses a role name.
    pub fn from_str(input: &str) -> (r: Result<TokenRole, ()>)
        ensures
            r == match TokenRole::parse(input@) {
                Some(role) => Ok::<TokenRole, ()>(role),
                None => Err::<TokenRole, ()>(()),
            },
    {
        if same_text(input, "Admin") {
            Ok(TokenRole::Admin)
        } else if same_text(input, "User") {
            Ok(TokenRole::User)
        } else if same_text(input, "Guest") {
            Ok(TokenRole::Guest)
        } else {
            Err(())
        }
    }
}

impl std::str::FromStr for TokenRole {
    type Err = ();

    /// Parses a role name, as [`TokenRole::from_str`] does.
    fn from_str(input: &str) -> (r: Result<TokenRole, ()>)
        ensures
            r == match TokenRole::parse(input@) {
                Some(role) => Ok::<TokenRole, ()>(role),
                None => Err::<TokenRole, ()>(()),
            },
    {
        TokenRole::from_str(input)
    }
}

/// A role with a name of its own is read back from the name it is shown
/// by; the default role is shown by a name that denotes no role.
pub proof fn lemma_shown_name_parses(role: TokenRole)
    ensures
        TokenRole::parse(role.name_text()) == if role == TokenRole::DefaultTokenRole {
            None
        } else {
            Some(role)
        },
{
    reveal_strlit("Admin");
    reveal_strlit("User");
    reveal_strlit("Guest");
    reveal_strlit("DefaultTokenRole");
    assert("Admin"@.len() == 5 && "User"@.len() == 4 && "DefaultTokenRole"@.len() == 16);
    assert("Guest"@[0] == 'G' && "Admin"@[0] == 'A');
}

/// The claims that a session token carries.
#[derive(Debug, Clone, PartialEq, Eq)]
pub struct Claims {
    /// The subject: the user's 128-bit identifier.
    pub sub: u128,
    pub email: String,
    pub role: String,
    /// Expiry, in seconds since the Unix epoch.
    pub exp: u64,
}

/// A claim set as plain values.
pub struct ClaimsView {
    pub sub: u128,
    pub email: Seq<char>,
    pub role: Seq<char>,
    pub exp: u64,
}

impl View for Claims {
    type V = ClaimsView;

    open spec fn view(&self) -> ClaimsView {
        ClaimsView { sub: self.sub, email: self.email@, role: self.role@, exp: self.exp }
    }
}

/// The pair of tokens handed out at sign-in.
#[derive(Debug, Clone, PartialEq, Eq)]
pub struct Token {
    pub access_token: String,
    pub refresh_token: String,
}

/// A token pair as plain values.
pub struct TokenView {
    pub access_token: Seq<char>,
    pub refresh_token: Seq<char>,
}

impl View for Token {
    type V = TokenView;

    open spec fn view(&self) -> TokenView {
        TokenView { access_token: self.access_token@, refresh_token: self.refresh_token@ }
    }
}

impl Default for Token {
    fn default() -> (t: Token)
        ensures
            t@.access_token.len() == 0,
            t@.refresh_token.len() == 0,
    {
        Token { access_token: String::new(), refresh_token: String::new() }
    }
}

/// The claim of an identity that a token left empty.
#[derive(Debug, Clone, Copy, PartialEq, Eq, Structural)]
pub enum EmptyClaim {
    Email,
    Role,
}

/// Why a token was not accepted.
#[derive(Debug, Clone, Copy, PartialEq, Eq, Structural)]
pub enum TokenError {
    /// The text is no token of ours: it is misshapen, or its signature does
    /// not match the secret.
    InvalidToken,
    InvalidIssuer,
    ExpiredSignature,
    /// Signature and expiry are in order, but the token names no email or no
    /// role, as a refresh token does.
    MalformedClaims(EmptyClaim),
    Other,
}

impl TokenError {
    /// The error that stands for a report of the decoder.
    pub open spec fn of_failure(failure: DecodeFailure) -> TokenError {
        match failure {
            DecodeFailure::InvalidToken => TokenError::InvalidToken,
            DecodeFailure::InvalidSignature => TokenError::InvalidToken,
            DecodeFailure::InvalidIssuer => TokenError::InvalidIssuer,
            DecodeFailure::ExpiredSignature => TokenError::ExpiredSignature,
            DecodeFailure::Other => TokenError::Other,
        }
    }

    /// The error that stands for a report of the decoder.
    pub fn from_failure(failure: DecodeFailure) -> (e: TokenError)
        ensures
            e == TokenError::of_failure(failure),
    {
        match failure {
            DecodeFailure::InvalidToken => TokenError::InvalidToken,
            DecodeFailure::InvalidSignature => TokenError::InvalidToken,
            DecodeFailure::InvalidIssuer => TokenError::InvalidIssuer,
            DecodeFailure::ExpiredSignature => TokenError::ExpiredSignature,
            DecodeFailure::Other => TokenError::Other,
        }
    }

    /// The sentence that describes the error.
    pub open spec fn message_text(self) -> Seq<char> {
        match self {
            TokenError::InvalidToken => "Token is invalid"@,
            TokenError::InvalidIssuer => "Issuer is invalid"@,
            TokenError::ExpiredSignature => "Token expired"@,
            TokenError::MalformedClaims(EmptyClaim::Email) => "Email is empty"@,
            TokenError::MalformedClaims(EmptyClaim::Role) => "Role is empty"@,
            TokenError::Other => "Some other errors"@,
        }
    }

    /// Describes the error in a sentence.
    pub fn message(&self) -> (text: String)
        ensures
            text@ == self.message_text(),
    {
        match self {
            TokenError::InvalidToken => "Token is invalid".to_owned(),
            TokenError::InvalidIssuer => "Issuer is invalid".to_owned(),
            TokenError::ExpiredSignature => "Token expired".to_owned(),
            TokenError::MalformedClaims(EmptyClaim::Email) => "Email is empty".to_owned(),
            TokenError::MalformedClaims(EmptyClaim::Role) => "Role is empty".to_owned(),
            TokenError::Other => "Some other errors".to_owned(),
        }
    }
}

/// The text of the token for a claim set: what the signer produces for it
/// under the signing secret.
pub open spec fn token_text(claims: ClaimsView) -> Seq<char> {
    signed_claims(claims.sub, claims.email, claims.role, claims.exp, SIGNING_SECRET@)
}

/// The claims of the access token issued to a user at `now`.
pub open spec fn access_claims(user_id: u128, email: Seq<char>, role: Seq<char>, now: u64) -> ClaimsView {
    ClaimsView { sub: user_id, email, role, exp: (now + ACCESS_LIFETIME) as u64 }
}

/// The claims of the refresh token issued to a user at `now`: the subject
/// alone, with neither email nor role.
pub open spec fn refresh_claims(user_id: u128, now: u64) -> ClaimsView {
    ClaimsView {
        sub: user_id,
        email: Seq::empty(),
        role: Seq::empty(),
        exp: (now + REFRESH_LIFETIME) as u64,
    }
}

/// The token pair issued to a user at `now`.
pub open spec fn issued(user_id: u128, email: Seq<char>, role: Seq<char>, now: u64) -> TokenView {
    TokenView {
        access_token: token_text(access_claims(user_id, email, role, now)),
        refresh_token: token_text(refresh_claims(user_id, now)),
    }
}

impl Claims {
    /// The claims of the access token issued to a user at `now`: the full
    /// identity, expiring after seven days.
    pub fn access(user_id: u128, email: &String, role: &String, now: u64) -> (claims: Claims)
        requires
            now + ACCESS_LIFETIME <= u64::MAX,
        ensures
            claims@ == access_claims(user_id, email@, role@, now),
            claims.exp == now + ACCESS_LIFETIME,
    {
        Claims { sub: user_id, email: email.clone(), role: role.clone(), exp: now + ACCESS_LIFETIME }
    }

    /// The claims of the refresh token issued to a user at `now`: the
    /// subject alone, expiring after thirty days.
    pub fn refresh(user_id: u128, now: u64) -> (claims: Claims)
        requires
            now + REFRESH_LIFETIME <= u64::MAX,
        ensures
            claims@ == refresh_claims(user_id, now),
            claims.exp == now + REFRESH_LIFETIME,
    {
        Claims {
            sub: user_id,
            email: String::new(),
            role: String::new(),
            exp: now + REFRESH_LIFETIME,
        }
    }
}

/// The signer produced no token.
#[derive(Debug, Clone, Copy, PartialEq, Eq, Structural)]
pub struct SigningFailed;

/// Signs a claim set, and hands a failure of the signer on as an error. The
/// signer does not fail on claims of this kind under a symmetric secret, so
/// a token comes back, and it is never empty.
pub fn sign(claims: &Claims) -> (token: Result<String, SigningFailed>)
    ensures
        token matches Ok(text) && text@ == token_text(claims@) && text@.len() > 0,
{
    match sign_claims(claims, SIGNING_SECRET) {
        Ok(text) => Ok(text),
        Err(_) => Err(SigningFailed),
    }
}

/// Signs a claim set. A failure of the signer would leave the token empty;
/// the signer does not fail on claims of this kind, so the token never is.
pub fn gen_jwt(claims: &Claims) -> (token: String)
    ensures
        token@ == token_text(claims@),
        token@.len() > 0,
{
    match sign(claims) {
        Ok(text) => text,
        Err(_) => String::new(),
    }
}

/// Issues the token pair of a user as of `now`, in seconds since the Unix
/// epoch: an access token with the full identity that expires after seven
/// days, and a refresh token with the subject alone that expires after
/// thirty. Neither token is empty.
pub fn create_token_at(user_id: u128, email: &String, role: &String, now: u64) -> (token: Token)
    requires
        now + REFRESH_LIFETIME <= u64::MAX,
    ensures
        token@ == issued(user_id, email@, role@, now),
        token@.access_token.len() > 0,
        token@.refresh_token.len() > 0,
{
    let acc_claims = Claims::access(user_id, email, role, now);
    let ref_claims = Claims::refresh(user_id, now);
    let access_token = gen_jwt(&acc_claims);
    let refresh_token = gen_jwt(&ref_claims);
    Token { access_token, refresh_token }
}

/// Issues the token pair of a user as of the system clock: the pair that
/// [`create_token_at`] issues for the clock's reading. Neither token is
/// empty.
pub fn create_token(user_id: u128, email: &String, role: &String) -> (token: Token)
    ensures
        exists|now: u64|
            now + REFRESH_LIFETIME <= u64::MAX && token@ == #[trigger] issued(
                user_id,
                email@,
                role@,
                now,
            ),
        token@.access_token.len() > 0,
        token@.refresh_token.len() > 0,
{
    let now = current_timestamp() as u64;
    create_token_at(user_id, email, role, now)
}

/// Issues the token pair of a user as of `now`, handing a failure of the
/// signer on as an error instead of leaving a token empty. The signer does
/// not fail, so the pair comes back, and neither token is empty.
pub fn try_create_token_at(user_id: u128, email: &String, role: &String, now: u64) -> (token: Result<
    Token,
    SigningFailed,
>)
    requires
        now + REFRESH_LIFETIME <= u64::MAX,
    ensures
        token matches Ok(pair) && pair@ == issued(user_id, email@, role@, now)
            && pair@.access_token.len() > 0 && pair@.refresh_token.len() > 0,
{
    let access_token = match sign(&Claims::access(user_id, email, role, now)) {
        Ok(text) => text,
        Err(error) => {
            return Err(error);
        },
    };
    let refresh_token = match sign(&Claims::refresh(user_id, now)) {
        Ok(text) => text,
        Err(error) => {
            return Err(error);
        },
    };
    Ok(Token { access_token, refresh_token })
}

/// Issues the token pair of a user as of the system clock, handing a
/// failure of the signer on as an error: the pair that
/// [`try_create_token_at`] issues for the clock's reading.
pub fn try_create_token(user_id: u128, email: &String, role: &String) -> (token: Result<
    Token,
    SigningFailed,
>)
    ensures
        token matches Ok(pair) && pair@.access_token.len() > 0 && pair@.refresh_token.len() > 0
            && exists|now: u64|
            now + REFRESH_LIFETIME <= u64::MAX && pair@ == #[trigger] issued(
                user_id,
                email@,
                role@,
                now,
            ),
{
    let now = current_timestamp() as u64;
    try_create_token_at(user_id, email, role, now)
}

/// What the decoder made of a token, as plain values.
pub open spec fn decoded_view(decoded: Result<Claims, DecodeFailure>) -> Result<ClaimsView, DecodeFailure> {
    match decoded {
        Ok(claims) => Ok(claims@),
        Err(failure) => Err(failure),
    }
}

/// The identity `(id, email, role)` that a decoded token stands for: the
/// decoder's refusal as a token error, and a claim set without email or without
/// role refused as malformed, the email looked at first.
pub open spec fn identity_of(decoded: Result<ClaimsView, DecodeFailure>) -> Result<
    (u128, Seq<char>, Seq<char>),
    TokenError,
> {
    match decoded {
        Err(failure) => Err(TokenError::of_failure(failure)),
        Ok(claims) => if claims.email.len() == 0 {
            Err(TokenError::MalformedClaims(EmptyClaim::Email))
        } else if claims.role.len() == 0 {
            Err(TokenError::MalformedClaims(EmptyClaim::Role))
        } else {
            Ok((claims.sub, claims.email, claims.role))
        },
    }
}

/// An identity, or the error in its place, as plain values.
pub open spec fn identity_view(identity: Result<(u128, String, String), TokenError>) -> Result<
    (u128, Seq<char>, Seq<char>),
    TokenError,
> {
    match identity {
        Ok(id) => Ok((id.0, id.1@, id.2@)),
        Err(error) => Err(error),
    }
}

/// The claims of an access token issued with an email and a role stand for
/// the identity they were issued to, whenever they were issued.
pub proof fn lemma_access_claims_carry_identity(
    user_id: u128,
    email: Seq<char>,
    role: Seq<char>,
    now: u64,
)
    requires
        email.len() > 0,
        role.len() > 0,
    ensures
        identity_of(Ok(access_claims(user_id, email, role, now))) == Ok::<
            (u128, Seq<char>, Seq<char>),
            TokenError,
        >((user_id, email, role)),
{
}

/// The claims of a refresh token stand for no identity: they are refused as
/// malformed, for whichever user and whenever they were issued.
pub proof fn lemma_refresh_claims_carry_no_identity(user_id: u128, now: u64)
    ensures
        identity_of(Ok(refresh_claims(user_id, now))) == Err::<
            (u128, Seq<char>, Seq<char>),
            TokenError,
        >(TokenError::MalformedClaims(EmptyClaim::Email)),
{
}

/// While the clock leaves room for the thirty days, an access token expires
/// seven days after it was issued and its refresh token thirty days after,
/// so the refresh token outlives the access token.
pub proof fn lemma_expiry(user_id: u128, email: Seq<char>, role: Seq<char>, now: u64)
    requires
        now + REFRESH_LIFETIME <= u64::MAX,
    ensures
        access_claims(user_id, email, role, now).exp == now + 7 * 86_400,
        refresh_claims(user_id, now).exp == now + 30 * 86_400,
        access_claims(user_id, email, role, now).exp < refresh_claims(user_id, now).exp,
{
}

/// Turns what the decoder made of a token into the identity it stands for.
pub fn claims_identity(decoded: Result<Claims, DecodeFailure>) -> (identity: Result<
    (u128, String, String),
    TokenError,
>)
    ensures
        identity_view(identity) == identity_of(decoded_view(decoded)),
{
    match decoded {
        Err(failure) => Err(TokenError::from_failure(failure)),
        Ok(claims) => {
            if claims.email.as_str().is_empty() {
                Err(TokenError::MalformedClaims(EmptyClaim::Email))
            } else if claims.role.as_str().is_empty() {
                Err(TokenError::MalformedClaims(EmptyClaim::Role))
            } else {
                Ok((claims.sub, claims.email, claims.role))
            }
        },
    }
}

/// The identity `(id, email, role)` of the claims that the decoder hands
/// back for a token where it accepts the token under the signing secret.
pub open spec fn accepted_identity(token: Seq<char>) -> Option<(u128, Seq<char>, Seq<char>)> {
    match accepted_payload(token, SIGNING_SECRET@) {
        Some(claims) => Some((claims.0, claims.1, claims.2)),
        None => None,
    }
}

/// Whether `decoded` is something the decoder may report for a token:
/// claims only where they are the token's own.
pub open spec fn reported_for(token: Seq<char>, decoded: Result<ClaimsView, DecodeFailure>) -> bool {
    decoded matches Ok(claims) ==> accepted_payload(token, SIGNING_SECRET@) == Some(
        (claims.sub, claims.email, claims.role, claims.exp),
    )
}

/// Decodes a token and checks its signature and expiry. Whether the decoder
/// accepts the token depends on the system clock; claims that come back are
/// the token's own.
fn decode_claims(token: &str) -> (decoded: Result<Claims, DecodeFailure>)
    ensures
        reported_for(token@, decoded_view(decoded)),
{
    match decode_token(token, SIGNING_SECRET) {
        Ok(claims) => Ok(claims),
        Err(error) => Err(failure_kind(&error)),
    }
}

/// Verifies a bearer token and returns the identity `(id, email, role)` it
/// carries. The decoder consults the system clock, so whether the token is
/// accepted is not a function of the token alone. The outcome is what
/// [`claims_identity`] makes of the decoder's report for this token: an
/// identity that comes back is that of the token's own claims, accepted
/// under the signing secret, and has an email and a role; a token refused as
/// malformed was accepted by the decoder and lacks the claim named.
pub fn jwt_auth(token: &str) -> (identity: Result<(u128, String, String), TokenError>)
    ensures
        exists|decoded: Result<ClaimsView, DecodeFailure>|
            #[trigger] reported_for(token@, decoded) && identity_view(identity) == identity_of(
                decoded,
            ),
        identity matches Ok(id) ==> accepted_identity(token@) == Some((id.0, id.1@, id.2@))
            && id.1@.len() > 0 && id.2@.len() > 0,
        identity matches Err(TokenError::MalformedClaims(claim)) ==> accepted_identity(token@)
            matches Some(found) && (claim == EmptyClaim::Email ==> found.1.len() == 0) && (claim
            == EmptyClaim::Role ==> found.1.len() > 0 && found.2.len() == 0),
{
    claims_identity(decode_claims(token))
}

/// Verifies a token held in a `String`; see [`jwt_auth`].
pub fn jwt_str_auth(token: &String) -> (identity: Result<(u128, String, String), TokenError>)
    ensures
        exists|decoded: Result<ClaimsView, DecodeFailure>|
            #[trigger] reported_for(token@, decoded) && identity_view(identity) == identity_of(
                decoded,
            ),
        identity matches Ok(id) ==> accepted_identity(token@) == Some((id.0, id.1@, id.2@))
            && id.1@.len() > 0 && id.2@.len() > 0,
        identity matches Err(TokenError::MalformedClaims(claim)) ==> accepted_identity(token@)
            matches Some(found) && (claim == EmptyClaim::Email ==> found.1.len() == 0) && (claim
            == EmptyClaim::Role ==> found.1.len() > 0 && found.2.len() == 0),
{
    jwt_auth(token.as_str())
}

} // verus!
