//! A description of one HTTP exchange, as plain values.
//!
//! The library decides what is sent; whoever owns the network connection
//! performs the [`Request`] and hands the outcome back.
use vstd::prelude::*;
use crate::models::fields::entries_view;
use crate::models::user::{Field, FieldView};

verus! {

/// The HTTP methods that the service's endpoints use.
#[derive(Clone, Copy, Debug, PartialEq, Eq, Structural)]
pub enum Method {
    Get,
    Patch,
}

/// How the response body is to be read.
#[derive(Clone, Copy, Debug, PartialEq, Eq, Structural)]
pub enum Decode {
    /// As a JSON document of the expected shape.
    Json,
    /// As plain text.
    Text,
}

/// The JSON payloads that this library sends.
#[derive(Debug)]
pub enum Body {
    /// `{"username": <name>}`
    Username(String),
    /// `{"fields": {<key>: <field>, ..}, "isAsystem": <flag>}`
    Profile { fields: Vec<(String, Field)>, is_a_system: bool },
}

/// The mathematical value of a [`Body`].
pub enum BodyView {
    Username(Seq<char>),
    Profile { fields: Seq<(Seq<char>, FieldView)>, is_a_system: bool },
}

impl View for Body {
    type V = BodyView;

    open spec fn view(&self) -> BodyView {
        match *self {
            Body::Username(name) => BodyView::Username(name@),
            Body::Profile { fields, is_a_system } => BodyView::Profile {
                fields: entries_view(fields@),
                is_a_system,
            },
        }
    }
}

/// The value of an optional body.
pub open spec fn body_view(body: Option<Body>) -> Option<BodyView> {
    match body {
        Some(b) => Some(b@),
        None => None,
    }
}

/// The value of a list of query parameters.
pub open spec fn pairs_view(pairs: Seq<(String, String)>) -> Seq<(Seq<char>, Seq<char>)> {
    pairs.map_values(|p: (String, String)| (p.0@, p.1@))
}

/// The value of an optional list of query parameters.
pub open spec fn query_view(query: Option<Vec<(String, String)>>) -> Option<
    Seq<(Seq<char>, Seq<char>)>,
> {
    match query {
        Some(q) => Some(pairs_view(q@)),
        None => None,
    }
}

/// One HTTP exchange to perform.
#[derive(Debug)]
pub struct Request {
    pub method: Method,
    /// The full URL: the endpoint's prefix followed by the path.
    pub url: String,
    /// The value of the `Authorization` header.
    pub authorization: String,
    /// The JSON payload, if any.
    pub body: Option<Body>,
    /// The URL query parameters, if any.
    pub query: Option<Vec<(String, String)>>,
    pub decode: Decode,
}

/// The mathematical value of a [`Request`].
pub struct RequestView {
    pub method: Method,
    pub url: Seq<char>,
    pub authorization: Seq<char>,
    pub body: Option<BodyView>,
    pub query: Option<Seq<(Seq<char>, Seq<char>)>>,
    pub decode: Decode,
}

impl View for Request {
    type V = RequestView;

    open spec fn view(&self) -> RequestView {
        RequestView {
            method: self.method,
            url: self.url@,
            authorization: self.authorization@,
            body: body_view(self.body),
            query: query_view(self.query),
            decode: self.decode,
        }
    }
}

} // verus!
