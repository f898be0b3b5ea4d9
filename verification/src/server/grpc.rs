//! The gateway to the remote services: which request is sent where, and
//! what the exchange amounts to.
//!
//! Connecting and sending are the host's work. A call is made once: an
//! exchange that fails is reported, never tried again.

use vstd::prelude::*;

verus! {

/// The remote services that the gateway forwards to.
#[derive(Debug, Clone, Copy, PartialEq, Eq, Structural)]
pub enum Service {
    Auth,
    Csv,
}

impl Service {
    /// The name of the setting that holds the service's address.
    pub open spec fn setting_text(self) -> Seq<char> {
        match self {
            Service::Auth => "AUTH_SERVICE_URL"@,
            Service::Csv => "CSV_SERVICE_URL"@,
        }
    }

    /// The name of the setting that holds the service's address. Both
    /// settings are mandatory.
    pub fn setting(self) -> (name: &'static str)
        ensures
            name@ == self.setting_text(),
    {
        match self {
            Service::Auth => "AUTH_SERVICE_URL",
            Service::Csv => "CSV_SERVICE_URL",
        }
    }
}

/// The request of the token check.
#[derive(Debug, Clone, PartialEq, Eq)]
pub struct CheckTokenRequest {
    pub user_id: String,
    pub access_token: String,
}

/// The request for a dataset.
#[derive(Debug, Clone, PartialEq, Eq)]
pub struct GetCsv {
    /// The instance's identifier in its hyphenated form.
    pub instance_id: String,
}

/// Why a forwarded call brought no reply.
#[derive(Debug, Clone, Copy, PartialEq, Eq, Structural)]
pub enum RpcError {
    /// The address is no endpoint, or no connection could be made to it.
    EndpointUnreachable,
    /// The connection stood, and the request failed.
    RequestFailed,
}

/// How far the host got with a call.
#[derive(Debug, Clone, PartialEq, Eq)]
pub enum Exchange<R> {
    /// The configured address is no endpoint.
    InvalidEndpoint,
    /// No connection could be made.
    ConnectFailed,
    /// The request was sent and failed.
    SendFailed,
    /// The service replied.
    Replied(R),
}

/// The hexadecimal digit, in lower case, of a value below sixteen.
pub open spec fn hex_digit(value: u128) -> char {
    "0123456789abcdef"@[value as int]
}

/// The `rank`-th of the thirty-two hexadecimal digits of an identifier, the
/// most significant first.
pub open spec fn nibble(id: u128, rank: int) -> u128 {
    (id >> (((31 - rank) * 4) as u128)) & 0xf
}

/// How many of an identifier's digits stand before position `at` of its
/// hyphenated form.
pub open spec fn digits_before(at: int) -> int {
    if at <= 8 {
        at
    } else if at <= 13 {
        at - 1
    } else if at <= 18 {
        at - 2
    } else if at <= 23 {
        at - 3
    } else {
        at - 4
    }
}

/// Whether position `at` of the hyphenated form holds a hyphen.
pub open spec fn is_hyphen(at: int) -> bool {
    at == 8 || at == 13 || at == 18 || at == 23
}

/// The hyphenated form of an identifier: thirty-two hexadecimal digits in
/// lower case, the most significant first, in groups of 8, 4, 4, 4 and 12.
pub open spec fn hyphenated(id: u128) -> Seq<char> {
    Seq::new(
        36,
        |at: int|
            if is_hyphen(at) {
                '-'
            } else {
                hex_digit(nibble(id, digits_before(at)))
            },
    )
}

/// Calls `uuid::Uuid::from_u128` and the `to_string` of the identifier it
/// makes, which writes the hyphenated form: the thirty-two hexadecimal
/// digits of the value in lower case, the most significant first, with a
/// hyphen after the eighth, twelfth, sixteenth and twentieth.
#[verifier::external_body]
pub(crate) fn hyphenate(id: u128) -> (text: String)
    ensures
        text@ == hyphenated(id),
{
    uuid::Uuid::from_u128(id).to_string()
}

/// The request that asks the Auth service whether a user's access token
/// stands.
pub fn check_token_request(user_id: &String, access_token: &String) -> (request: CheckTokenRequest)
    ensures
        request.user_id@ == user_id@,
        request.access_token@ == access_token@,
{
    CheckTokenRequest { user_id: user_id.clone(), access_token: access_token.clone() }
}

/// The request that asks the CSV service for the dataset of an instance.
pub fn get_csv_request(instance_id: u128) -> (request: GetCsv)
    ensures
        request.instance_id@ == hyphenated(instance_id),
{
    GetCsv { instance_id: hyphenate(instance_id) }
}

/// What an exchange amounts to: the reply, `EndpointUnreachable` where no
/// connection came about, `RequestFailed` where the request failed.
pub open spec fn concluded<R>(exchange: Exchange<R>) -> Result<R, RpcError> {
    match exchange {
        Exchange::InvalidEndpoint => Err(RpcError::EndpointUnreachable),
        Exchange::ConnectFailed => Err(RpcError::EndpointUnreachable),
        Exchange::SendFailed => Err(RpcError::RequestFailed),
        Exchange::Replied(reply) => Ok(reply),
    }
}

/// Concludes a call from how far the host got with it.
pub fn conclude<R>(exchange: Exchange<R>) -> (outcome: Result<R, RpcError>)
    ensures
        outcome == concluded(exchange),
{
    match exchange {
        Exchange::InvalidEndpoint => Err(RpcError::EndpointUnreachable),
        Exchange::ConnectFailed => Err(RpcError::EndpointUnreachable),
        Exchange::SendFailed => Err(RpcError::RequestFailed),
        Exchange::Replied(reply) => Ok(reply),
    }
}

} // verus!
