//! The handlers that need no session: health, greetings, the fallback, and
//! the landing page.

use vstd::prelude::*;
use crate::auth_dto::{User, UserView};
use crate::errors::{AppError, AppErrorView};
use crate::text::{join3, owned};

verus! {

/// HTTP status for a path that no handler serves.
pub const NOT_FOUND: u16 = 404;

/// Body of the health response.
#[derive(Debug, PartialEq, Eq)]
pub struct HealthResponse {
    pub status: String,
}

/// The health response: the service is up.
pub fn health() -> (response: HealthResponse)
    ensures
        response.status@ == "OK"@,
{
    HealthResponse { status: owned("OK") }
}

/// The response for a path that no handler serves.
pub fn not_found() -> (r: (u16, &'static str))
    ensures
        r.0 == NOT_FOUND,
        r.1@ == "nothing to see here"@,
{
    (NOT_FOUND, "nothing to see here")
}

/// Body of a greeting request.
#[derive(Debug, PartialEq, Eq)]
pub struct HelloRequest {
    pub name: String,
}

/// Body of a greeting response.
#[derive(Debug, PartialEq, Eq)]
pub struct HelloResponse {
    pub message: String,
    pub version: String,
}

/// The greeting for nobody in particular, from a service of this version.
pub fn hello_world(version: &str) -> (response: HelloResponse)
    ensures
        response.message@ == "Hello, World!"@,
        response.version@ == version@,
{
    HelloResponse { message: owned("Hello, World!"), version: owned(version) }
}

/// The greeting for the name in the request. An empty name is a validation
/// error on the field `name`.
pub fn hello_with_params(version: &str, request: HelloRequest) -> (r: Result<
    HelloResponse,
    AppError,
>)
    ensures
        match r {
            Ok(response) => {
                &&& request.name@.len() > 0
                &&& response.message@ == "Hello, "@ + request.name@ + "!"@
                &&& response.version@ == version@
            },
            Err(e) => {
                &&& request.name@.len() == 0
                &&& e@ == (AppErrorView::ValidationError { field: "name"@ })
            },
        },
{
    if request.name.as_str().is_empty() {
        return Err(AppError::ValidationError { field: owned("name") });
    }
    Ok(
        HelloResponse {
            message: join3("Hello, ", request.name.as_str(), "!"),
            version: owned(version),
        },
    )
}

/// Body of a farewell request.
#[derive(Debug, PartialEq, Eq)]
pub struct GoodbyeRequest {
    pub reason: String,
}

/// Body of a farewell response.
#[derive(Debug, PartialEq, Eq)]
pub struct GoodbyeResponse {
    pub message: String,
}

/// The farewell without a reason.
pub fn goodbye_world() -> (response: GoodbyeResponse)
    ensures
        response.message@ == "Goodbye, World!"@,
{
    GoodbyeResponse { message: owned("Goodbye, World!") }
}

/// The farewell for the reason in the request. An empty reason is a
/// validation error on the field `reason`.
pub fn goodbye_reason(request: GoodbyeRequest) -> (r: Result<GoodbyeResponse, AppError>)
    ensures
        match r {
            Ok(response) => {
                &&& request.reason@.len() > 0
                &&& response.message@ == "Goodbye World! Reason: "@ + request.reason@
            },
            Err(e) => {
                &&& request.reason@.len() == 0
                &&& e@ == (AppErrorView::ValidationError { field: "reason"@ })
            },
        },
{
    if request.reason.as_str().is_empty() {
        return Err(AppError::ValidationError { field: owned("reason") });
    }
    let mut message = owned("Goodbye World! Reason: ");
    message.append(request.reason.as_str());
    Ok(GoodbyeResponse { message })
}

/// What the landing page says to a client who is not signed in.
pub const ANONYMOUS_GREETING: &'static str =
    "You're not logged in.\nVisit `/auth/discord` or `/auth/google` to do so.";

/// What the landing page says after the name of a signed-in user.
pub const SIGNED_IN_GREETING: &'static str =
    "! You're logged in!\nYou may now access `/protected`.\nLog out with `/auth/logout`.";

/// The text of the landing page for an optional identity.
pub open spec fn index_text(user: Option<UserView>) -> Seq<char> {
    match user {
        Some(u) => "Hey "@ + u.username + SIGNED_IN_GREETING@,
        None => ANONYMOUS_GREETING@,
    }
}

/// The landing page: a greeting by name for a signed-in user, directions to
/// the login for anyone else.
pub fn index(user: Option<&User>) -> (text: String)
    ensures
        text@ == index_text(
            match user {
                Some(u) => Some(u@),
                None => None,
            },
        ),
{
    match user {
        Some(u) => join3("Hey ", u.username.as_str(), SIGNED_IN_GREETING),
        None => owned(ANONYMOUS_GREETING),
    }
}

} // verus!
