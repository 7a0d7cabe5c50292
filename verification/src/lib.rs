//! Typed, authenticated access to the REST API of a user-tracking service.
//!
//! The library decides what is sent and what a response means. It never
//! touches the network itself: each operation that needs the service comes
//! as a pair, one function that builds the [`request::Request`] and one that
//! takes the outcome of that request and commits it.
use vstd::prelude::*;
use std::sync::Arc;
use crate::client::{Client, ClientView, is_invalid_credential, is_legal_header_value, share};
use crate::error::SPError;
use crate::models::user::{GetUserResponse, User, fetch_request_view, id_view};
use crate::request::Request;

pub mod client;
pub mod error;
pub mod models;
pub mod request;

verus! {

/// The service instance that a client talks to.
#[derive(Debug)]
pub enum SPEndpoint {
    Production,
    Pretesting,
    Custom(String),
}

impl Clone for SPEndpoint {
    fn clone(&self) -> (r: Self)
        ensures
            r == *self,
    {
        match self {
            SPEndpoint::Production => SPEndpoint::Production,
            SPEndpoint::Pretesting => SPEndpoint::Pretesting,
            SPEndpoint::Custom(url) => SPEndpoint::Custom(url.clone()),
        }
    }
}

impl SPEndpoint {
    /// The URL prefix of the endpoint. A custom one is taken as it is.
    pub open spec fn resolve(self) -> Seq<char> {
        match self {
            SPEndpoint::Production => "https://api.apparyllis.com"@,
            SPEndpoint::Pretesting => "https://devapi.apparyllis.com"@,
            SPEndpoint::Custom(url) => url@,
        }
    }

    /// The URL prefix of the endpoint, as a string.
    pub fn to_string(&self) -> (url: String)
        ensures
            url@ == self.resolve(),
    {
        match self {
            SPEndpoint::Production => "https://api.apparyllis.com".to_owned(),
            SPEndpoint::Pretesting => "https://devapi.apparyllis.com".to_owned(),
            SPEndpoint::Custom(url) => url.clone(),
        }
    }
}

/// The entry point: one client, shared by every user that is fetched
/// through it.
#[derive(Debug)]
pub struct SPApi {
    client: Arc<Client>,
}

impl View for SPApi {
    type V = ClientView;

    closed spec fn view(&self) -> ClientView {
        (*self.client)@
    }
}

impl Clone for SPApi {
    /// A second handle on the same client.
    fn clone(&self) -> (r: Self)
        ensures
            r@ == self@,
    {
        SPApi { client: share(&self.client) }
    }
}

impl SPApi {
    /// Makes the entry point for `endpoint` with the credential `auth_key`.
    /// Succeeds exactly when `auth_key` is a legal header value.
    pub fn new(auth_key: &str, endpoint: SPEndpoint) -> (r: Result<SPApi, SPError>)
        ensures
            r is Ok <==> is_legal_header_value(auth_key@),
            r matches Ok(api) ==> api@ == (ClientView { endpoint, auth_key: auth_key@ }),
            r matches Err(e) ==> is_invalid_credential(e),
    {
        match Client::new(auth_key, endpoint) {
            Ok(client) => Ok(SPApi { client: Arc::new(client) }),
            Err(e) => Err(e),
        }
    }

    /// The client that every request goes through.
    pub fn client(&self) -> (client: &Client)
        ensures
            client@ == self@,
    {
        &*self.client
    }

    /// The request that fetches the user `user_id`, or the user that the
    /// credential belongs to where no id is given.
    pub fn get_user_request(&self, user_id: &Option<String>) -> (request: Request)
        ensures
            request@ == fetch_request_view(self@, id_view(*user_id)),
    {
        User::fetch_request(user_id, &*self.client)
    }

    /// Completes a fetch: `outcome` is what the request of
    /// [`SPApi::get_user_request`] gave. The user that comes back is bound
    /// to this entry point's client.
    pub fn get_user(&self, outcome: Result<GetUserResponse<User>, SPError>) -> (r: Result<
        User,
        SPError,
    >)
        ensures
            match outcome {
                Err(e) => r == Err::<User, SPError>(e),
                Ok(response) => match response.content {
                    Some(user) => r matches Ok(u) && u@ == user@.bound_to(self@),
                    None => r == Err::<User, SPError>(SPError::ContentMissingError),
                },
            },
    {
        User::new(outcome, share(&self.client))
    }
}

} // verus!
