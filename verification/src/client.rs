//! The client: a credential, and the three ways of calling a resource with it.

use crate::dispatch::{Dispatch, DispatchView};
use crate::request::{resource_request, Method, Request};
use vstd::prelude::*;

verus! {

/// A client of the Supabase Management API. It holds the API key and nothing
/// else; its view is that key. The key is never changed: a new key takes a
/// new client.
pub struct Client {
    api_key: String,
}

impl View for Client {
    type V = Seq<char>;

    closed spec fn view(&self) -> Seq<char> {
        self.api_key@
    }
}

impl Clone for Client {
    fn clone(&self) -> (copy: Self)
        ensures
            copy@ == self@,
    {
        Client { api_key: self.api_key.clone() }
    }
}

/// The call that a client with `credential` makes of the resource at
/// `endpoint`: the request for it, and the credential to present.
pub open spec fn resource_call(
    credential: Seq<char>,
    method: Method,
    endpoint: Seq<char>,
    payload: Option<Seq<char>>,
) -> DispatchView {
    DispatchView {
        request: resource_request(method, endpoint, payload),
        credential: Some(credential),
    }
}

impl Client {
    /// Creates a client that presents `api_key`.
    pub fn new(api_key: String) -> (client: Client)
        ensures
            client@ == api_key@,
    {
        Client { api_key }
    }

    /// Prepares `request` to be sent with the client's key as its bearer
    /// token. This is the one place where a credential meets a request.
    pub fn send_request<T>(&self, request: Request) -> (dispatch: Dispatch<T>)
        ensures
            dispatch@ == (DispatchView {
                request: request.deep_view(),
                credential: Some(self@),
            }),
    {
        Dispatch::authorized(request, self.api_key.clone())
    }

    /// Prepares a `GET` of the resource at `endpoint`.
    pub fn get<T>(&self, endpoint: &str) -> (dispatch: Dispatch<T>)
        ensures
            dispatch@ == resource_call(self@, Method::Get, endpoint@, None),
    {
        self.send_request(Request::resource(Method::Get, endpoint, None))
    }

    /// Prepares a `POST` to the resource at `endpoint`, with `payload`, the
    /// text of a JSON document, as its body if there is one.
    pub fn post<T>(&self, endpoint: &str, payload: Option<String>) -> (dispatch: Dispatch<T>)
        ensures
            dispatch@ == resource_call(self@, Method::Post, endpoint@, payload.deep_view()),
    {
        self.send_request(Request::resource(Method::Post, endpoint, payload))
    }

    /// Prepares a `PUT` to the resource at `endpoint`, with `payload`, the
    /// text of a JSON document, as its body if there is one.
    pub fn put<T>(&self, endpoint: &str, payload: Option<String>) -> (dispatch: Dispatch<T>)
        ensures
            dispatch@ == resource_call(self@, Method::Put, endpoint@, payload.deep_view()),
    {
        self.send_request(Request::resource(Method::Put, endpoint, payload))
    }

}

/// The path of the resource `rest` of the project `project_id`.
pub open spec fn project_resource(project_id: Seq<char>, rest: Seq<char>) -> Seq<char> {
    "projects/"@ + project_id + rest
}

/// Writes the path of the resource `rest`, which begins with a slash, of the
/// project `project_id`.
pub fn project_path(project_id: &str, rest: &str) -> (path: String)
    ensures
        path@ == project_resource(project_id@, rest@),
{
    let mut path = String::from_str("projects/");
    path.append(project_id);
    path.append(rest);
    path
}

} // verus!
