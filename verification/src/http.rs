//! What a handler hands back to the HTTP layer: a status, a body and,
//! where the access token changes, a cookie.

use vstd::prelude::*;

verus! {

/// Lifetime of an access token and of the cookie that carries it: one hour.
pub const ACCESS_TOKEN_MAX_AGE_SECONDS: i64 = 3600;

/// Name of the cookie that carries the access token.
pub open spec fn access_cookie_name() -> Seq<char> {
    "access_token"@
}

/// Path on which the access-token cookie is valid.
pub open spec fn access_cookie_path() -> Seq<char> {
    "/"@
}

/// Text of the payload sent when the service itself failed.
pub open spec fn server_error_message() -> Seq<char> {
    "internal server error"@
}

/// The two statuses that the handlers answer with.
#[derive(Debug, Clone, Copy, PartialEq, Eq, Structural)]
pub enum StatusCode {
    Success,
    InternalServerError,
}

impl StatusCode {
    /// The numeric code of the status line.
    pub open spec fn code_spec(self) -> u16 {
        match self {
            StatusCode::Success => 200,
            StatusCode::InternalServerError => 500,
        }
    }

    /// The numeric code of the status line.
    #[verifier::when_used_as_spec(code_spec)]
    pub fn code(self) -> (code: u16)
        ensures
            code == self.code_spec(),
    {
        match self {
            StatusCode::Success => 200,
            StatusCode::InternalServerError => 500,
        }
    }
}

/// The payload that tells a client no more than that the service failed.
#[derive(Debug, Clone, PartialEq, Eq)]
pub struct ServerErrorResponse {
    pub success: bool,
    pub message: String,
}

/// The mathematical value of a [`ServerErrorResponse`].
pub struct ServerErrorResponseView {
    pub success: bool,
    pub message: Seq<char>,
}

impl View for ServerErrorResponse {
    type V = ServerErrorResponseView;

    open spec fn view(&self) -> ServerErrorResponseView {
        ServerErrorResponseView { success: self.success, message: self.message@ }
    }
}

/// The one value that a server-error payload has.
pub open spec fn server_error_payload() -> ServerErrorResponseView {
    ServerErrorResponseView { success: false, message: server_error_message() }
}

impl ServerErrorResponse {
    /// The generic payload: no success, and a fixed message.
    pub fn new() -> (response: ServerErrorResponse)
        ensures
            response@ == server_error_payload(),
    {
        ServerErrorResponse {
            success: false,
            message: "internal server error".to_owned(),
        }
    }
}

/// The access-token cookie to set on a response.
#[derive(Debug, Clone, PartialEq, Eq)]
pub struct AccessCookie {
    pub name: String,
    pub value: String,
    pub http_only: bool,
    pub max_age_seconds: i64,
    pub path: String,
}

/// The mathematical value of an [`AccessCookie`].
pub struct AccessCookieView {
    pub name: Seq<char>,
    pub value: Seq<char>,
    pub http_only: bool,
    pub max_age_seconds: i64,
    pub path: Seq<char>,
}

impl View for AccessCookie {
    type V = AccessCookieView;

    open spec fn view(&self) -> AccessCookieView {
        AccessCookieView {
            name: self.name@,
            value: self.value@,
            http_only: self.http_only,
            max_age_seconds: self.max_age_seconds,
            path: self.path@,
        }
    }
}

/// The cookie that hands `token` to the client for an hour, out of reach of
/// scripts.
pub open spec fn issued_cookie(token: Seq<char>) -> AccessCookieView {
    AccessCookieView {
        name: access_cookie_name(),
        value: token,
        http_only: true,
        max_age_seconds: ACCESS_TOKEN_MAX_AGE_SECONDS,
        path: access_cookie_path(),
    }
}

/// The cookie that makes the client drop its access token at once.
pub open spec fn cleared_cookie() -> AccessCookieView {
    AccessCookieView {
        name: access_cookie_name(),
        value: Seq::empty(),
        http_only: true,
        max_age_seconds: 0,
        path: access_cookie_path(),
    }
}

/// The `Set-Cookie` header value that the `cookie` crate, as `actix_web`
/// exports it, renders for a cookie with these attributes.
pub uninterp spec fn set_cookie_value(
    name: Seq<char>,
    value: Seq<char>,
    http_only: bool,
    max_age_seconds: i64,
    path: Seq<char>,
) -> Seq<char>;

/// Builds a cookie with `actix_web::cookie::Cookie::build`, a maximum age
/// of `time::Duration::seconds`, and renders it with the cookie's `Display`
/// as a `Set-Cookie` header value: name and value, then the attributes that
/// are set.
///
/// The text depends on the five arguments alone; it is named, not spelled
/// out.
#[verifier::external_body]
pub(crate) fn render_cookie(
    name: &str,
    value: &str,
    http_only: bool,
    max_age_seconds: i64,
    path: &str,
) -> (header: String)
    ensures
        header@ == set_cookie_value(name@, value@, http_only, max_age_seconds, path@),
{
    actix_web::cookie::Cookie::build(name.to_owned(), value.to_owned())
        .http_only(http_only)
        .max_age(time::Duration::seconds(max_age_seconds))
        .path(path.to_owned())
        .finish()
        .to_string()
}

impl AccessCookieView {
    /// The `Set-Cookie` header value of the cookie.
    pub open spec fn header_value(self) -> Seq<char> {
        set_cookie_value(self.name, self.value, self.http_only, self.max_age_seconds, self.path)
    }
}

impl AccessCookie {
    /// The `Set-Cookie` header value that sets the cookie.
    pub fn header_value(&self) -> (header: String)
        ensures
            header@ == self@.header_value(),
    {
        render_cookie(
            self.name.as_str(),
            self.value.as_str(),
            self.http_only,
            self.max_age_seconds,
            self.path.as_str(),
        )
    }

    /// The cookie that carries a freshly issued access token.
    pub fn issue(token: String) -> (cookie: AccessCookie)
        ensures
            cookie@ == issued_cookie(token@),
    {
        AccessCookie {
            name: "access_token".to_owned(),
            value: token,
            http_only: true,
            max_age_seconds: ACCESS_TOKEN_MAX_AGE_SECONDS,
            path: "/".to_owned(),
        }
    }

    /// The cookie that clears the access token.
    pub fn clear() -> (cookie: AccessCookie)
        ensures
            cookie@ == cleared_cookie(),
    {
        AccessCookie {
            name: "access_token".to_owned(),
            value: String::new(),
            http_only: true,
            max_age_seconds: 0,
            path: "/".to_owned(),
        }
    }
}

/// The body of a reply: the endpoint's own payload, or the generic one.
#[derive(Debug, Clone, PartialEq, Eq)]
pub enum Body<P> {
    Payload(P),
    ServerError(ServerErrorResponse),
}

/// The mathematical value of a [`Body`].
pub enum BodyView<P> {
    Payload(P),
    ServerError(ServerErrorResponseView),
}

impl<P: View> View for Body<P> {
    type V = BodyView<P::V>;

    open spec fn view(&self) -> BodyView<P::V> {
        match self {
            Body::Payload(payload) => BodyView::Payload(payload@),
            Body::ServerError(error) => BodyView::ServerError(error@),
        }
    }
}

/// A complete answer to one request.
#[derive(Debug, Clone, PartialEq, Eq)]
pub struct Reply<P> {
    pub status: StatusCode,
    pub body: Body<P>,
    pub cookie: Option<AccessCookie>,
}

/// The mathematical value of a [`Reply`].
pub struct ReplyView<P> {
    pub status: StatusCode,
    pub body: BodyView<P>,
    pub cookie: Option<AccessCookieView>,
}

impl<P: View> View for Reply<P> {
    type V = ReplyView<P::V>;

    open spec fn view(&self) -> ReplyView<P::V> {
        ReplyView {
            status: self.status,
            body: self.body@,
            cookie: match self.cookie {
                Some(cookie) => Some(cookie@),
                None => None,
            },
        }
    }
}

/// A reply with the endpoint's payload and no cookie.
pub open spec fn plain_reply<P>(status: StatusCode, payload: P) -> ReplyView<P> {
    ReplyView { status, body: BodyView::Payload(payload), cookie: None }
}

/// A successful reply that also sets `cookie`.
pub open spec fn reply_with_cookie<P>(payload: P, cookie: AccessCookieView) -> ReplyView<P> {
    ReplyView {
        status: StatusCode::Success,
        body: BodyView::Payload(payload),
        cookie: Some(cookie),
    }
}

/// The generic failure reply under `status`.
pub open spec fn server_error_reply<P>(status: StatusCode) -> ReplyView<P> {
    ReplyView { status, body: BodyView::ServerError(server_error_payload()), cookie: None }
}

impl<P: View> Reply<P> {
    /// A reply with the endpoint's payload and no cookie.
    pub fn plain(status: StatusCode, payload: P) -> (reply: Reply<P>)
        ensures
            reply@ == plain_reply(status, payload@),
    {
        Reply { status, body: Body::Payload(payload), cookie: None }
    }

    /// A successful reply that also sets `cookie`.
    pub fn with_cookie(payload: P, cookie: AccessCookie) -> (reply: Reply<P>)
        ensures
            reply@ == reply_with_cookie(payload@, cookie@),
    {
        Reply { status: StatusCode::Success, body: Body::Payload(payload), cookie: Some(cookie) }
    }

    /// The generic failure reply under `status`.
    pub fn server_error(status: StatusCode) -> (reply: Reply<P>)
        ensures
            reply@ == server_error_reply::<P::V>(status),
    {
        Reply { status, body: Body::ServerError(ServerErrorResponse::new()), cookie: None }
    }
}

} // verus!
