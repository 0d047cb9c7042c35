use vstd::prelude::*;

verus! {

use vstd::string::StrSliceExecFns;
use vstd::string::StringExecFns;
use crate::text::str_eq;
use crate::text::str_starts_with;

/// The decision of the bearer-token check that may wrap the router. The
/// router itself performs no authentication; a shell that layers this check
/// on top turns each outcome into its own response (pass the request
/// through, reject it, or report the missing secret as the server's own
/// fault).
#[derive(Debug, PartialEq, Eq)]
pub enum AuthOutcome {
    Authorized,
    MissingHeader,
    NotBearer,
    InvalidToken,
    MissingSecret,
}

/// The header value with every leading `Bearer ` scheme marker removed,
/// which is what remains as the presented token.
pub open spec fn spec_strip_bearer(value: Seq<char>) -> Seq<char>
    decreases value.len(),
{
    if "Bearer "@.len() > 0 && "Bearer "@.is_prefix_of(value) {
        spec_strip_bearer(value.skip("Bearer "@.len() as int))
    } else {
        value
    }
}

/// The view of an optional string argument.
pub open spec fn spec_opt_view(value: Option<&String>) -> Option<Seq<char>> {
    match value {
        Some(text) => Some(text@),
        None => None,
    }
}

/// The whole middleware decision: no header rejects the request, a header
/// without the bearer scheme rejects it, a missing configured secret is the
/// server's own fault, and otherwise the presented token must equal the
/// secret exactly.
pub open spec fn spec_authorize(header: Option<Seq<char>>, secret: Option<Seq<char>>) -> AuthOutcome {
    match header {
        None => AuthOutcome::MissingHeader,
        Some(value) => if !"Bearer "@.is_prefix_of(value) {
            AuthOutcome::NotBearer
        } else {
            match secret {
                None => AuthOutcome::MissingSecret,
                Some(expected) => if spec_strip_bearer(value) == expected {
                    AuthOutcome::Authorized
                } else {
                    AuthOutcome::InvalidToken
                },
            }
        },
    }
}

/// Removes every leading `Bearer ` marker from the header value.
fn strip_bearer(value: &str) -> (token: String)
    ensures
        token@ == spec_strip_bearer(value@),
{
    let mut rest = String::from_str(value);
    while str_starts_with(rest.as_str(), "Bearer ")
        invariant
            spec_strip_bearer(value@) == spec_strip_bearer(rest@),
        decreases rest@.len(),
    {
        proof {
            reveal_strlit("Bearer ");
        }
        let rest_len = rest.as_str().unicode_len();
        rest = String::from_str(rest.as_str().substring_char(7, rest_len));
    }
    rest
}

/// Compares the presented token with the configured secret; with no secret
/// configured the check cannot pass and reports the configuration fault.
pub fn check_auth_token(token: &str, expected_secret: Option<&String>) -> (outcome: AuthOutcome)
    ensures
        match expected_secret {
            Some(secret) => outcome == (if token@ == secret@ {
                AuthOutcome::Authorized
            } else {
                AuthOutcome::InvalidToken
            }),
            None => outcome == AuthOutcome::MissingSecret,
        },
{
    match expected_secret {
        Some(secret) => {
            if str_eq(token, secret.as_str()) {
                AuthOutcome::Authorized
            } else {
                AuthOutcome::InvalidToken
            }
        },
        None => AuthOutcome::MissingSecret,
    }
}

/// Decides whether a request passes the bearer-token check, from the
/// Authorization header as presented (already decoded to text by the
/// shell) and the expected secret as configured.
pub fn authorize_request(header: Option<&String>, expected_secret: Option<&String>) -> (outcome:
    AuthOutcome)
    ensures
        outcome == spec_authorize(spec_opt_view(header), spec_opt_view(expected_secret)),
{
    match header {
        None => AuthOutcome::MissingHeader,
        Some(value) => {
            if !str_starts_with(value.as_str(), "Bearer ") {
                AuthOutcome::NotBearer
            } else {
                let token = strip_bearer(value.as_str());
                check_auth_token(token.as_str(), expected_secret)
            }
        },
    }
}

/// The greeting served on the root route.
pub fn welcome_message() -> (message: &'static str)
    ensures
        message@ == "Hello, welcome to our server"@,
{
    "Hello, welcome to our server"
}

} // verus!
