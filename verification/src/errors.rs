use vstd::prelude::*;

verus! {

/// The closed set of error kinds this library reports. Callers branch on the
/// variant, never on message text.
///
/// - `Conflict`: a registration hit an email that is already stored.
/// - `Auth`: bad login credentials; deliberately the same value whether the
///   email was unknown or the password was wrong.
/// - `NotFound`: a lookup found no record; internal to the store layer and
///   translated to `Auth` before a login caller sees it.
/// - `Config`: the signing secret was absent or unusable; fatal, never caused
///   by client input.
/// - `Store`: any other store failure, surfaced as a generic server error.
#[derive(Clone, Copy, Debug, PartialEq, Eq, Structural)]
pub enum ServiceError {
    Conflict,
    Auth,
    NotFound,
    Config,
    Store,
}

/// How a token fails validation.
///
/// - `Invalid`: the signature did not verify or the token is malformed.
/// - `Expired`: the token decoded correctly but its expiry lies in the past.
#[derive(Clone, Copy, Debug, PartialEq, Eq, Structural)]
pub enum TokenError {
    Invalid,
    Expired,
}

/// The short, non-revealing message shown to a client for each error kind.
/// Both login failure causes share one message, so a caller cannot tell an
/// unknown email from a wrong password.
pub fn error_message(e: &ServiceError) -> (r: &'static str)
    ensures
        r@ == match *e {
            ServiceError::Conflict => "email already registered"@,
            ServiceError::Auth => "invalid credentials"@,
            ServiceError::NotFound => "not found"@,
            ServiceError::Config => "server configuration error"@,
            ServiceError::Store => "internal server error"@,
        },
{
    match *e {
        ServiceError::Conflict => "email already registered",
        ServiceError::Auth => "invalid credentials",
        ServiceError::NotFound => "not found",
        ServiceError::Config => "server configuration error",
        ServiceError::Store => "internal server error",
    }
}

/// The HTTP status that corresponds to each error kind: client faults map to
/// 4xx, configuration and store faults to a generic 500.
pub fn status_code(e: &ServiceError) -> (r: u16)
    ensures
        r == match *e {
            ServiceError::Conflict => 409u16,
            ServiceError::Auth => 401u16,
            ServiceError::NotFound => 404u16,
            ServiceError::Config => 500u16,
            ServiceError::Store => 500u16,
        },
{
    match *e {
        ServiceError::Conflict => 409,
        ServiceError::Auth => 401,
        ServiceError::NotFound => 404,
        ServiceError::Config => 500,
        ServiceError::Store => 500,
    }
}

} // verus!
