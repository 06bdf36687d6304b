//! One call to the API, from the prepared request to the typed result.
//!
//! The library never touches the network. A [`Dispatch`] says what to send;
//! whoever sends it reports back in the order in which a response unfolds:
//! that sending failed, or the status that came, and then the body, read as
//! text after a status that fails the call and as bytes after any other. The
//! status is judged before any body is read, and a body is decoded only after
//! a status that lets the call stand.

use crate::decode::{decoded_document, from_slice, outcome, Decode, OTHER_SHAPE};
use crate::error::{
    decode_failure_message, send_failure_message, status_failure_message, text_failure_message,
    Error,
};
use crate::json::{json_parsed, JsonValue};
use crate::request::{Request, RequestView};
use crate::text::{decimal, decimal_value, lemma_decimal_value, lemma_occurs_between, occurs_in};
use std::marker::PhantomData;
use vstd::prelude::*;

verus! {

/// A status that fails the call: a client error (4xx) or a server error (5xx).
pub open spec fn fails(status: u16) -> bool {
    400 <= status <= 599
}

/// The value of the `Authorization` header that presents `credential`.
pub open spec fn bearer(credential: Seq<char>) -> Seq<char> {
    "Bearer "@ + credential
}

/// The message that ends a rejected call, by what reading the body as text
/// gave.
pub open spec fn rejection(status: u16, read: Result<Seq<char>, Seq<char>>) -> Seq<char> {
    match read {
        Ok(body) => status_failure_message(status, body),
        Err(detail) => text_failure_message(detail),
    }
}

/// What the body of an accepted response, or the failure to read it, comes
/// to for the type `T`.
pub open spec fn decoded_body<T: Decode>(read: Result<Seq<u8>, Seq<char>>) -> Result<
    T::V,
    Seq<char>,
> {
    match read {
        Ok(bytes) => decoded_document::<T>(json_parsed(bytes)),
        Err(detail) => Err(decode_failure_message(T::name(), detail)),
    }
}

/// The value of what a reader of texts hands back.
pub open spec fn text_read(read: Result<String, String>) -> Result<Seq<char>, Seq<char>> {
    match read {
        Ok(text) => Ok(text@),
        Err(detail) => Err(detail@),
    }
}

/// The value of what a reader of bytes hands back.
pub open spec fn bytes_read(read: Result<Vec<u8>, String>) -> Result<Seq<u8>, Seq<char>> {
    match read {
        Ok(bytes) => Ok(bytes@),
        Err(detail) => Err(detail@),
    }
}

/// Tells whether `status` fails the call.
pub fn is_failure(status: u16) -> (failing: bool)
    ensures
        failing == fails(status),
{
    400 <= status && status <= 599
}

/// A call that is ready to be sent: the request, the credential to present
/// with it, if any, and the type `T` that the response is to be decoded into.
pub struct Dispatch<T> {
    request: Request,
    credential: Option<String>,
    target: PhantomData<T>,
}

/// The mathematical value of a [`Dispatch`].
pub struct DispatchView {
    pub request: RequestView,
    pub credential: Option<Seq<char>>,
}

impl<T> View for Dispatch<T> {
    type V = DispatchView;

    closed spec fn view(&self) -> DispatchView {
        DispatchView {
            request: self.request.deep_view(),
            credential: self.credential.deep_view(),
        }
    }
}

/// Prepares `request` to be sent as it is, with no credential: the way of the
/// one call that obtains a credential.
pub fn send_request<T>(request: Request) -> (dispatch: Dispatch<T>)
    ensures
        dispatch@ == (DispatchView { request: request.deep_view(), credential: None }),
{
    Dispatch { request, credential: None, target: PhantomData }
}

impl<T> Dispatch<T> {
    /// Prepares `request` to be sent with `credential` as its bearer token.
    pub fn authorized(request: Request, credential: String) -> (dispatch: Dispatch<T>)
        ensures
            dispatch@ == (DispatchView {
                request: request.deep_view(),
                credential: Some(credential@),
            }),
    {
        Dispatch { request, credential: Some(credential), target: PhantomData }
    }

    /// The request to send.
    pub fn request(&self) -> (request: &Request)
        ensures
            request.deep_view() == self@.request,
    {
        &self.request
    }

    /// The bearer token to present, if the call presents one.
    pub fn credential(&self) -> (credential: Option<&str>)
        ensures
            credential.deep_view() == self@.credential,
    {
        match &self.credential {
            Some(token) => Some(token.as_str()),
            None => None,
        }
    }

    /// The value of the `Authorization` header to send, if the call presents
    /// a credential.
    pub fn authorization(&self) -> (header: Option<String>)
        ensures
            header.deep_view() == match self@.credential {
                Some(token) => Some(bearer(token)),
                None => None,
            },
    {
        match &self.credential {
            Some(token) => {
                let mut header = String::from_str("Bearer ");
                header.append(token.as_str());
                Some(header)
            },
            None => None,
        }
    }

    /// The request could not be sent, or no response came: `detail` is the
    /// transport's account of it.
    pub fn send_failed(self, detail: &str) -> (error: Error)
        ensures
            error@ == send_failure_message(detail@),
    {
        Error::send_failure(detail)
    }

    /// A response came with `status`. The status alone decides how the call
    /// goes on: rejected if it fails the call, accepted otherwise.
    pub fn responded(self, status: u16) -> (response: Response<T>)
        ensures
            fails(status) ==> (response matches Response::Rejected(rejected) && rejected@
                == status),
            !fails(status) ==> (response matches Response::Accepted(accepted) && accepted@
                == status),
    {
        if is_failure(status) {
            Response::Rejected(Rejected { status })
        } else {
            Response::Accepted(Accepted { status, target: PhantomData })
        }
    }
}

/// What a status makes of a call.
pub enum Response<T> {
    /// The status fails the call; the body is to be read as text.
    Rejected(Rejected),
    /// The status lets the call stand; the body is to be read as bytes.
    Accepted(Accepted<T>),
}

/// A call whose response came with a failing status. Its view is the status,
/// which is always a client error or a server error.
pub struct Rejected {
    status: u16,
}

impl View for Rejected {
    type V = u16;

    closed spec fn view(&self) -> u16 {
        self.status
    }
}

impl Rejected {
    #[verifier::type_invariant]
    closed spec fn failing(self) -> bool {
        fails(self.status)
    }

    /// The status that failed the call.
    pub fn status(&self) -> (status: u16)
        ensures
            status == self@,
            fails(status),
    {
        proof {
            use_type_invariant(self);
        }
        self.status
    }

    /// Ends the call with what reading the body as text gave: the text, or
    /// the transport's account of why it could not be read.
    pub fn text(self, read: Result<String, String>) -> (error: Error)
        ensures
            error@ == rejection(self@, text_read(read)),
    {
        match read {
            Ok(body) => Error::status_failure(self.status, body.as_str()),
            Err(detail) => Error::text_failure(detail.as_str()),
        }
    }
}

/// A call whose response came with a status that lets it stand. Its view is
/// the status, which is never a client error or a server error.
pub struct Accepted<T> {
    status: u16,
    target: PhantomData<T>,
}

impl<T> View for Accepted<T> {
    type V = u16;

    closed spec fn view(&self) -> u16 {
        self.status
    }
}

impl<T> Accepted<T> {
    #[verifier::type_invariant]
    closed spec fn standing(self) -> bool {
        !fails(self.status)
    }

    /// The status that let the call stand.
    pub fn status(&self) -> (status: u16)
        ensures
            status == self@,
            !fails(status),
    {
        proof {
            use_type_invariant(self);
        }
        self.status
    }

    /// Ends the call with what a decoder of the caller's own made of the
    /// body: its value as it is, or a decode failure that names `target` and
    /// gives the decoder's complaint.
    pub fn decoded(self, target: &str, decoded: Result<T, String>) -> (result: Result<T, Error>)
        ensures
            match decoded {
                Ok(value) => result == Ok::<T, Error>(value),
                Err(complaint) => (result matches Err(error) && error@ == decode_failure_message(
                    target@,
                    complaint@,
                )),
            },
    {
        match decoded {
            Ok(value) => Ok(value),
            Err(complaint) => Err(Error::decode_failure(target, complaint.as_str())),
        }
    }
}

impl<T: Decode> Accepted<T> {
    /// Ends the call with what reading the body gave: its bytes, or the
    /// transport's account of why they could not be read. The bytes are
    /// decoded into `T`.
    pub fn body(self, read: Result<Vec<u8>, String>) -> (result: Result<T, Error>)
        ensures
            outcome(result) == decoded_body::<T>(bytes_read(read)),
    {
        match read {
            Ok(bytes) => from_slice(bytes.as_slice()),
            Err(detail) => {
                let target = T::target_name();
                Err(Error::decode_failure(target.as_str(), detail.as_str()))
            },
        }
    }
}

/// A response with a status from 200 to 299 lets the call stand, and a body
/// that spells a document of the shape of `T` is then decoded into the value
/// that the document stands for: what the call yields is what reading the
/// document by hand yields.
pub proof fn lemma_well_formed_body_decodes<T: Decode>(
    status: u16,
    bytes: Seq<u8>,
    document: JsonValue,
)
    requires
        200 <= status <= 299,
        json_parsed(bytes) == Ok::<JsonValue, Seq<char>>(document),
        T::shape(document) is Some,
    ensures
        !fails(status),
        decoded_body::<T>(Ok(bytes)) == Ok::<T::V, Seq<char>>(T::shape(document)->0),
{
}

/// A response with a status from 400 to 599 fails the call, and the call then
/// ends with an error whose message holds the status code in decimal, which
/// reads back as the status and as no other number, and the body, letter for
/// letter.
pub proof fn lemma_failing_status_is_reported(status: u16, body: Seq<char>)
    requires
        400 <= status <= 599,
    ensures
        fails(status),
        rejection(status, Ok(body)) == status_failure_message(status, body),
        occurs_in(decimal(status as nat), status_failure_message(status, body)),
        decimal_value(decimal(status as nat)) == status,
        occurs_in(body, status_failure_message(status, body)),
{
    let code = decimal(status as nat);
    let message = status_failure_message(status, body);
    lemma_occurs_between(Seq::empty(), code, ": "@ + body);
    assert(Seq::<char>::empty() + code + (": "@ + body) =~= message);
    lemma_occurs_between(code + ": "@, body, Seq::empty());
    assert(code + ": "@ + body + Seq::<char>::empty() =~= message);
    lemma_decimal_value(status as nat);
}

/// A response with a status from 200 to 299 whose body is no JSON, or spells
/// a document of another shape than `T`'s, ends the call with a decode
/// failure that names `T`: there is no value, whole or in part.
pub proof fn lemma_malformed_body_fails<T: Decode>(status: u16, bytes: Seq<u8>)
    requires
        200 <= status <= 299,
        json_parsed(bytes) is Err || T::shape(json_parsed(bytes)->Ok_0) is None,
    ensures
        !fails(status),
        decoded_body::<T>(Ok(bytes)) == Err::<T::V, Seq<char>>(
            decode_failure_message(
                T::name(),
                match json_parsed(bytes) {
                    Ok(_) => OTHER_SHAPE@,
                    Err(complaint) => complaint,
                },
            ),
        ),
{
}

} // verus!
