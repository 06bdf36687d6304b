//! The description of one HTTP request: what to send, without the means to
//! send it and without the credential.

use vstd::prelude::*;

verus! {

/// The root that every resource path is joined to.
pub const BASE_URL: &'static str = "https://api.supabase.com/v1";

/// The content type of a JSON body.
pub const JSON_CONTENT: &'static str = "application/json";

/// The content type of a form body.
pub const FORM_CONTENT: &'static str = "application/x-www-form-urlencoded";

/// The HTTP methods that the API is called with.
#[derive(Clone, Copy, Debug, PartialEq, Eq, Structural)]
pub enum Method {
    Get,
    Post,
    Put,
}

/// What a request carries.
#[derive(Debug)]
pub enum Body {
    /// Nothing.
    Empty,
    /// A JSON document, as its text.
    Json(String),
    /// Form fields, as names and values that are yet to be URL-encoded.
    Form(Vec<(String, String)>),
}

/// The mathematical value of a [`Body`].
pub enum BodyView {
    Empty,
    Json(Seq<char>),
    Form(Seq<(Seq<char>, Seq<char>)>),
}

impl DeepView for Body {
    type V = BodyView;

    open spec fn deep_view(&self) -> BodyView {
        match self {
            Body::Empty => BodyView::Empty,
            Body::Json(text) => BodyView::Json(text@),
            Body::Form(fields) => BodyView::Form(fields.deep_view()),
        }
    }
}

impl Body {
    /// The content type that goes with the body, if it has one.
    pub fn content_type(&self) -> (content: Option<&'static str>)
        ensures
            content.deep_view() == match self.deep_view() {
                BodyView::Empty => None,
                BodyView::Json(_) => Some(JSON_CONTENT@),
                BodyView::Form(_) => Some(FORM_CONTENT@),
            },
    {
        match self {
            Body::Empty => None,
            Body::Json(_) => Some(JSON_CONTENT),
            Body::Form(_) => Some(FORM_CONTENT),
        }
    }
}

/// One request: method, absolute URL and body. A request never holds the
/// credential, so it can be shown and logged as it is.
#[derive(Debug)]
pub struct Request {
    pub method: Method,
    pub url: String,
    pub body: Body,
}

/// The mathematical value of a [`Request`].
pub struct RequestView {
    pub method: Method,
    pub url: Seq<char>,
    pub body: BodyView,
}

impl DeepView for Request {
    type V = RequestView;

    open spec fn deep_view(&self) -> RequestView {
        RequestView { method: self.method, url: self.url@, body: self.body.deep_view() }
    }
}

/// The URL of the resource at `endpoint`, a path relative to [`BASE_URL`].
pub open spec fn resource_url(endpoint: Seq<char>) -> Seq<char> {
    BASE_URL@ + "/"@ + endpoint
}

/// Joins `endpoint`, a path relative to the API root, to [`BASE_URL`].
pub fn endpoint_url(endpoint: &str) -> (url: String)
    ensures
        url@ == resource_url(endpoint@),
{
    let mut url = String::from_str(BASE_URL);
    url.append("/");
    url.append(endpoint);
    url
}

/// The request that a resource call makes of `endpoint`: a body of JSON where
/// there is a payload, none where there is not.
pub open spec fn resource_request(method: Method, endpoint: Seq<char>, payload: Option<Seq<char>>)
    -> RequestView {
    RequestView {
        method,
        url: resource_url(endpoint),
        body: match payload {
            Some(text) => BodyView::Json(text),
            None => BodyView::Empty,
        },
    }
}

impl Request {
    /// Describes a call of `method` on the resource at `endpoint`, with
    /// `payload`, the text of a JSON document, as its body.
    pub fn resource(method: Method, endpoint: &str, payload: Option<String>) -> (request: Request)
        ensures
            request.deep_view() == resource_request(method, endpoint@, payload.deep_view()),
    {
        let body = match payload {
            Some(text) => Body::Json(text),
            None => Body::Empty,
        };
        Request { method, url: endpoint_url(endpoint), body }
    }
}

} // verus!
