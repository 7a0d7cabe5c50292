//! The transport client: a base endpoint and a fixed credential, and the
//! requests that are made from them.
use vstd::prelude::*;
use vstd::string::*;
use std::sync::Arc;
use crate::SPEndpoint;
use crate::error::SPError;
use crate::request::{Body, BodyView, Decode, Method, Request, RequestView, body_view, query_view};

verus! {

/// Whether a character may stand in the value of an HTTP header: anything
/// but the control characters, of which only the tab is allowed.
pub open spec fn is_legal_header_char(c: char) -> bool {
    (c as u32 >= 32 && c as u32 != 127) || c == '\t'
}

/// Whether a text is a legal value for an HTTP header.
pub open spec fn is_legal_header_value(value: Seq<char>) -> bool {
    forall|i: int| 0 <= i < value.len() ==> is_legal_header_char(#[trigger] value[i])
}

/// The message of the error that a refused credential gives.
pub open spec fn invalid_credential_message() -> Seq<char> {
    "the credential is not a legal header value"@
}

/// Whether `error` is the one that a refused credential gives.
pub open spec fn is_invalid_credential(error: SPError) -> bool {
    error matches SPError::UnspecifiedError(m) && m@ == invalid_credential_message()
}

/// `reqwest::header::HeaderValue::from_str`, asked only whether it accepts.
/// It walks the bytes of `value` and refuses the first one below 32 that is
/// not a tab, and the byte 127. A character from 128 on is encoded in bytes
/// that are all above 127, so the test on bytes is this test on characters.
#[verifier::external_body]
fn header_value_accepts(value: &str) -> (accepted: bool)
    ensures
        accepted == is_legal_header_value(value@),
{
    reqwest::header::HeaderValue::from_str(value).is_ok()
}

/// The mathematical value of a [`Client`].
pub struct ClientView {
    pub endpoint: SPEndpoint,
    pub auth_key: Seq<char>,
}

/// The request for `path` that a client with the value `client` sends: the
/// URL is the endpoint's prefix with `path` appended, and the credential goes
/// into the `Authorization` header as it is.
pub open spec fn request_view(
    client: ClientView,
    path: Seq<char>,
    method: Method,
    body: Option<BodyView>,
    query: Option<Seq<(Seq<char>, Seq<char>)>>,
    decode: Decode,
) -> RequestView {
    RequestView {
        method,
        url: client.endpoint.resolve() + path,
        authorization: client.auth_key,
        body,
        query,
        decode,
    }
}

/// An endpoint and the credential that every request to it carries.
/// Both are fixed at construction, and the credential is always a legal
/// header value.
#[derive(Debug)]
pub struct Client {
    endpoint: SPEndpoint,
    auth_key: String,
}

impl View for Client {
    type V = ClientView;

    closed spec fn view(&self) -> ClientView {
        ClientView { endpoint: self.endpoint, auth_key: self.auth_key@ }
    }
}

/// `Arc::clone`: one more handle to the same client. The new handle stands
/// for the value that the old one stands for.
#[verifier::external_body]
pub(crate) fn share(client: &Arc<Client>) -> (handle: Arc<Client>)
    ensures
        handle == *client,
{
    Arc::clone(client)
}

impl Clone for Client {
    fn clone(&self) -> (r: Self)
        ensures
            r@ == self@,
    {
        proof {
            use_type_invariant(self);
        }
        Client { endpoint: self.endpoint.clone(), auth_key: self.auth_key.clone() }
    }
}

impl Client {
    #[verifier::type_invariant]
    spec fn credential_is_legal(&self) -> bool {
        is_legal_header_value(self.auth_key@)
    }

    /// Makes a client for `endpoint` that authenticates with `auth_key`.
    /// Succeeds exactly when `auth_key` is a legal header value.
    pub fn new(auth_key: &str, endpoint: SPEndpoint) -> (r: Result<Client, SPError>)
        ensures
            r is Ok <==> is_legal_header_value(auth_key@),
            r matches Ok(client) ==> client@ == (ClientView { endpoint, auth_key: auth_key@ }),
            r matches Err(e) ==> is_invalid_credential(e),
    {
        if header_value_accepts(auth_key) {
            Ok(Client { endpoint, auth_key: auth_key.to_owned() })
        } else {
            Err(SPError::UnspecifiedError("the credential is not a legal header value".to_owned()))
        }
    }

    /// The endpoint that this client talks to.
    pub fn endpoint(&self) -> (endpoint: &SPEndpoint)
        ensures
            *endpoint == self@.endpoint,
    {
        &self.endpoint
    }

    /// The credential, as it goes into the `Authorization` header.
    pub fn auth_key(&self) -> (key: &str)
        ensures
            key@ == self@.auth_key,
            is_legal_header_value(key@),
    {
        proof {
            use_type_invariant(self);
        }
        self.auth_key.as_str()
    }

    /// The full URL of `path`: the endpoint's prefix with `path` appended
    /// as it is.
    pub fn get_url(&self, path: &str) -> (url: String)
        ensures
            url@ == self@.endpoint.resolve() + path@,
    {
        let mut url = self.endpoint.to_string();
        url.append(path);
        url
    }

    /// The request for `path` that this client sends.
    pub fn request_raw(
        &self,
        path: &str,
        method: Method,
        body: Option<Body>,
        query: Option<Vec<(String, String)>>,
        decode: Decode,
    ) -> (request: Request)
        ensures
            request@ == request_view(self@, path@, method, body_view(body), query_view(query), decode),
            is_legal_header_value(request.authorization@),
    {
        proof {
            use_type_invariant(self);
        }
        Request {
            method,
            url: self.get_url(path),
            authorization: self.auth_key.clone(),
            body,
            query,
            decode,
        }
    }

    /// The request for `path` whose response is read as JSON.
    pub fn request_json(
        &self,
        path: &str,
        method: Method,
        body: Option<Body>,
        query: Option<Vec<(String, String)>>,
    ) -> (request: Request)
        ensures
            request@ == request_view(
                self@,
                path@,
                method,
                body_view(body),
                query_view(query),
                Decode::Json,
            ),
    {
        self.request_raw(path, method, body, query, Decode::Json)
    }

    /// The request for `path` whose response is read as plain text.
    pub fn request_text(
        &self,
        path: &str,
        method: Method,
        body: Option<Body>,
        query: Option<Vec<(String, String)>>,
    ) -> (request: Request)
        ensures
            request@ == request_view(
                self@,
                path@,
                method,
                body_view(body),
                query_view(query),
                Decode::Text,
            ),
    {
        self.request_raw(path, method, body, query, Decode::Text)
    }
}

} // verus!
