//! The two routes of the service and the decisions taken for a request:
//! which handler serves it, and the response that comes back.
use vstd::prelude::*;
use crate::form::{
    bind_form, decode_form, form_pairs_of, form_from_pairs, key_only_at,
    lemma_unique_fields_bind, pairs_view, FormError, FormField, FormaData,
};
use crate::text::str_eq;

verus! {

pub const STATUS_OK: u16 = 200;

pub const STATUS_BAD_REQUEST: u16 = 400;

pub const STATUS_NOT_FOUND: u16 = 404;

pub const STATUS_METHOD_NOT_ALLOWED: u16 = 405;

pub const STATUS_PAYLOAD_TOO_LARGE: u16 = 413;

pub const STATUS_UNSUPPORTED_MEDIA_TYPE: u16 = 415;

/// The largest subscription body accepted, in bytes.
pub const FORM_LIMIT: usize = 16384;

/// The request methods that the routes tell apart.
#[derive(Clone, Copy, Debug, PartialEq, Eq, Structural)]
pub enum Method {
    Get,
    Post,
    Other,
}

/// Where a request goes.
#[derive(Clone, Copy, Debug, PartialEq, Eq, Structural)]
pub enum Endpoint {
    HealthCheck,
    Subscriptions,
    /// The path is known but not with this method.
    MethodNotAllowed,
    NotFound,
}

pub open spec fn route_spec(method: Method, path: Seq<char>) -> Endpoint {
    if path == "/health_check"@ {
        if method == Method::Get {
            Endpoint::HealthCheck
        } else {
            Endpoint::MethodNotAllowed
        }
    } else if path == "/subscriptions"@ {
        if method == Method::Post {
            Endpoint::Subscriptions
        } else {
            Endpoint::MethodNotAllowed
        }
    } else {
        Endpoint::NotFound
    }
}

/// The route table: `GET /health_check` and `POST /subscriptions`.
pub fn route(method: Method, path: &str) -> (r: Endpoint)
    ensures
        r == route_spec(method, path@),
{
    if str_eq(path, "/health_check") {
        if method == Method::Get {
            Endpoint::HealthCheck
        } else {
            Endpoint::MethodNotAllowed
        }
    } else if str_eq(path, "/subscriptions") {
        if method == Method::Post {
            Endpoint::Subscriptions
        } else {
            Endpoint::MethodNotAllowed
        }
    } else {
        Endpoint::NotFound
    }
}

/// Why a request was not served with success.
#[derive(Debug)]
pub enum Rejection {
    NotFound,
    MethodNotAllowed,
    /// The subscription body is not declared as a form.
    UnsupportedMediaType,
    /// The subscription body is longer than the limit.
    PayloadTooLarge { size: usize, limit: usize },
    /// The subscription form could not be bound.
    Form(FormError),
}

impl Rejection {
    pub open spec fn status_spec(&self) -> u16 {
        match self {
            Rejection::NotFound => STATUS_NOT_FOUND,
            Rejection::MethodNotAllowed => STATUS_METHOD_NOT_ALLOWED,
            Rejection::UnsupportedMediaType => STATUS_UNSUPPORTED_MEDIA_TYPE,
            Rejection::PayloadTooLarge { .. } => STATUS_PAYLOAD_TOO_LARGE,
            Rejection::Form(_) => STATUS_BAD_REQUEST,
        }
    }

    pub fn status_code(&self) -> (r: u16)
        ensures
            r == self.status_spec(),
    {
        match self {
            Rejection::NotFound => STATUS_NOT_FOUND,
            Rejection::MethodNotAllowed => STATUS_METHOD_NOT_ALLOWED,
            Rejection::UnsupportedMediaType => STATUS_UNSUPPORTED_MEDIA_TYPE,
            Rejection::PayloadTooLarge { .. } => STATUS_PAYLOAD_TOO_LARGE,
            Rejection::Form(_) => STATUS_BAD_REQUEST,
        }
    }
}

/// A response: its status, and the rejection that it reports, if any. A
/// response without a rejection has an empty body.
#[derive(Debug)]
pub struct Response {
    pub status: u16,
    pub rejection: Option<Rejection>,
}

impl Response {
    /// Success with an empty body.
    pub open spec fn is_empty_ok(&self) -> bool {
        self.status == STATUS_OK && self.rejection is None
    }

    pub fn ok() -> (r: Response)
        ensures
            r.is_empty_ok(),
    {
        Response { status: STATUS_OK, rejection: None }
    }

    pub fn rejected(rejection: Rejection) -> (r: Response)
        ensures
            r.status == rejection.status_spec(),
            r.rejection == Some(rejection),
    {
        let status = rejection.status_code();
        Response { status, rejection: Some(rejection) }
    }

    /// A response that reports `rejection`.
    pub open spec fn rejects(&self, rejection: Rejection) -> bool {
        self.status == rejection.status_spec() && self.rejection == Some(rejection)
    }
}

/// `GET /health_check`: success with an empty body.
pub fn health_check() -> (r: Response)
    ensures
        r.is_empty_ok(),
{
    Response::ok()
}

/// `POST /subscriptions` with a bound form: the form is accepted and dropped,
/// with success and an empty body, whatever its fields hold.
pub fn subscribe(_form: FormaData) -> (r: Response)
    ensures
        r.is_empty_ok(),
{
    Response::ok()
}

/// What `str::to_lowercase` makes of a string.
pub uninterp spec fn lower_of(s: Seq<char>) -> Seq<char>;

/// Relies on str::to_lowercase: the lowercase form, a function of the
/// characters alone.
#[verifier::external_body]
fn lowercase(s: &str) -> (r: String)
    ensures
        r@ == lower_of(s@),
{
    s.to_lowercase()
}

/// A lowercased content type that declares a form-encoded body.
pub open spec fn is_form_type(lowered: Seq<char>) -> bool {
    lowered == "application/x-www-form-urlencoded"@
}

/// Whether a content type, already lowercased, declares a form-encoded body.
pub fn is_form_content_type(lowered: &str) -> (r: bool)
    ensures
        r == is_form_type(lowered@),
{
    str_eq(lowered, "application/x-www-form-urlencoded")
}

/// The response for a subscription form that was bound to `form`, or not.
pub fn respond_to_form(form: Result<FormaData, FormError>) -> (r: Response)
    ensures
        match form {
            Ok(_) => r.is_empty_ok(),
            Err(e) => r.rejects(Rejection::Form(e)),
        },
{
    match form {
        Ok(f) => subscribe(f),
        Err(e) => Response::rejected(Rejection::Form(e)),
    }
}

/// The response for a subscription body that decoded into `pairs`.
pub fn respond_to_pairs(pairs: &Vec<(String, String)>) -> (r: Response)
    ensures
        match bind_form(pairs_view(pairs@)) {
            Ok(_) => r.is_empty_ok(),
            Err(e) => r.rejects(Rejection::Form(e)),
        },
{
    respond_to_form(form_from_pairs(pairs))
}

/// The response that `POST /subscriptions` gives for a content type and body:
/// the content type is checked first, then the size, then the form.
pub open spec fn subscription_outcome(content_type: Seq<char>, body: Seq<u8>, r: Response) -> bool {
    if !is_form_type(lower_of(content_type)) {
        r.rejects(Rejection::UnsupportedMediaType)
    } else if body.len() > FORM_LIMIT {
        r.rejects(Rejection::PayloadTooLarge { size: body.len() as usize, limit: FORM_LIMIT })
    } else {
        match form_pairs_of(body) {
            None => r.status == STATUS_BAD_REQUEST && r.rejection matches Some(
                Rejection::Form(FormError::Malformed(_)),
            ),
            Some(pairs) => match bind_form(pairs) {
                Ok(_) => r.is_empty_ok(),
                Err(e) => r.rejects(Rejection::Form(e)),
            },
        }
    }
}

/// `body` decodes into pairs in which `email` and `name` each stand once.
pub open spec fn has_unique_fields(body: Seq<u8>) -> bool {
    match form_pairs_of(body) {
        Some(pairs) => exists|ie: int, ind: int|
            key_only_at(pairs, FormField::Email.key(), ie) && key_only_at(
                pairs,
                FormField::Name.key(),
                ind,
            ),
        None => false,
    }
}

/// Serves `POST /subscriptions`.
pub fn subscription(content_type: &str, body: &[u8]) -> (r: Response)
    ensures
        subscription_outcome(content_type@, body@, r),
        is_form_type(lower_of(content_type@)) && body@.len() <= FORM_LIMIT && has_unique_fields(
            body@,
        ) ==> r.is_empty_ok(),
{
    let lowered = lowercase(content_type);
    if !is_form_content_type(lowered.as_str()) {
        return Response::rejected(Rejection::UnsupportedMediaType);
    }
    if body.len() > FORM_LIMIT {
        return Response::rejected(Rejection::PayloadTooLarge { size: body.len(), limit: FORM_LIMIT });
    }
    let form = decode_form(body);
    proof {
        if has_unique_fields(body@) {
            let pairs = form_pairs_of(body@)->Some_0;
            let (ie, ind) = choose|ie: int, ind: int|
                key_only_at(pairs, FormField::Email.key(), ie) && key_only_at(
                    pairs,
                    FormField::Name.key(),
                    ind,
                );
            lemma_unique_fields_bind(pairs, ie, ind);
        }
    }
    respond_to_form(form)
}

/// Serves a request: routes it, then answers from the route's handler or with
/// the router's rejection.
pub fn respond(method: Method, path: &str, content_type: &str, body: &[u8]) -> (r: Response)
    ensures
        match route_spec(method, path@) {
            Endpoint::HealthCheck => r.is_empty_ok(),
            Endpoint::Subscriptions => subscription_outcome(content_type@, body@, r),
            Endpoint::MethodNotAllowed => r.rejects(Rejection::MethodNotAllowed),
            Endpoint::NotFound => r.rejects(Rejection::NotFound),
        },
        method == Method::Get && path@ == "/health_check"@ ==> r.is_empty_ok(),
        method == Method::Post && path@ == "/subscriptions"@ && is_form_type(
            lower_of(content_type@),
        ) && body@.len() <= FORM_LIMIT && has_unique_fields(body@) ==> r.is_empty_ok(),
{
    proof {
        reveal_strlit("/health_check");
        reveal_strlit("/subscriptions");
        assert("/health_check"@.len() != "/subscriptions"@.len());
    }
    match route(method, path) {
        Endpoint::HealthCheck => health_check(),
        Endpoint::Subscriptions => subscription(content_type, body),
        Endpoint::MethodNotAllowed => Response::rejected(Rejection::MethodNotAllowed),
        Endpoint::NotFound => Response::rejected(Rejection::NotFound),
    }
}

} // verus!
