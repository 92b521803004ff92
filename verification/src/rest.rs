//! Requests to REST services, and what can go wrong with them.

use crate::json::{json, JsonView};
use vstd::prelude::*;

verus! {

/// An HTTP method.
#[derive(Debug, Clone, Copy, PartialEq, Eq, Structural)]
pub enum Method {
    Get,
    Post,
}

/// The body of a request.
#[derive(Debug)]
pub enum Body {
    Empty,
    Json(serde_json::Value),
}

impl View for Body {
    type V = Option<JsonView>;

    open spec fn view(&self) -> Option<JsonView> {
        match self {
            Body::Empty => None,
            Body::Json(v) => Some(json(*v)),
        }
    }
}

/// The query of a request: names and numbers, in the order in which they are sent.
pub open spec fn query_view(query: Seq<(String, u32)>) -> Seq<(Seq<char>, u32)> {
    query.map_values(|p: (String, u32)| (p.0@, p.1))
}

/// An operation of a REST service.
pub trait Endpoint {
    spec fn path_spec(&self) -> Seq<char>;

    open spec fn method_spec(&self) -> Method {
        Method::Get
    }

    open spec fn query_spec(&self) -> Seq<(Seq<char>, u32)> {
        Seq::empty()
    }

    open spec fn body_spec(&self) -> Option<JsonView> {
        None
    }

    /// The path, relative to the address of the service.
    fn path(&self) -> (r: String)
        ensures
            r@ == self.path_spec(),
    ;

    fn method(&self) -> (r: Method)
        ensures
            r == self.method_spec(),
    ;

    fn query_params(&self) -> (r: Vec<(String, u32)>)
        ensures
            query_view(r@) == self.query_spec(),
    ;

    fn body(&self) -> (r: Body)
        ensures
            r@ == self.body_spec(),
    ;
}

/// A query without parameters.
pub(crate) fn no_params() -> (r: Vec<(String, u32)>)
    ensures
        query_view(r@) == Seq::<(Seq<char>, u32)>::empty(),
{
    let r: Vec<(String, u32)> = Vec::new();
    assert(query_view(r@) =~= Seq::<(Seq<char>, u32)>::empty());
    r
}

/// A request, ready to be sent.
#[derive(Debug)]
pub struct Request {
    pub method: Method,
    pub path: String,
    pub query: Vec<(String, u32)>,
    pub body: Body,
}

pub struct RequestView {
    pub method: Method,
    pub path: Seq<char>,
    pub query: Seq<(Seq<char>, u32)>,
    pub body: Option<JsonView>,
}

impl View for Request {
    type V = RequestView;

    open spec fn view(&self) -> RequestView {
        RequestView {
            method: self.method,
            path: self.path@,
            query: query_view(self.query@),
            body: self.body@,
        }
    }
}

/// The request that an endpoint stands for.
pub open spec fn request_of<E: Endpoint>(endpoint: E) -> RequestView {
    RequestView {
        method: endpoint.method_spec(),
        path: endpoint.path_spec(),
        query: endpoint.query_spec(),
        body: endpoint.body_spec(),
    }
}

/// The request that an endpoint stands for.
pub fn request<E: Endpoint>(endpoint: &E) -> (r: Request)
    ensures
        r@ == request_of(*endpoint),
{
    Request {
        method: endpoint.method(),
        path: endpoint.path(),
        query: endpoint.query_params(),
        body: endpoint.body(),
    }
}

/// A text that is no absolute URL, and why.
#[derive(Debug, PartialEq, Eq)]
pub struct UrlError {
    pub message: String,
}

/// What `url::Url::parse` makes of a text: the URL as it is written in full, or the message of the
/// error.
pub uninterp spec fn parsed_url(text: Seq<char>) -> Result<Seq<char>, Seq<char>>;

/// Calls `url::Url::parse`, and turns the URL or the error that it returns into text. What it
/// accepts, and either text, is named, and no more is said of it.
#[verifier::external_body]
fn parse_url(text: &str) -> (r: Result<String, String>)
    ensures
        match r {
            Ok(url) => parsed_url(text@) == Ok::<Seq<char>, Seq<char>>(url@),
            Err(message) => parsed_url(text@) == Err::<Seq<char>, Seq<char>>(message@),
        },
{
    match url::Url::parse(text) {
        Ok(url) => Ok(String::from(url)),
        Err(e) => Err(e.to_string()),
    }
}

/// A client of a REST service: its address, what authorises the requests, and how often a request
/// that failed is sent again.
#[derive(Debug)]
pub struct RestClient<A> {
    pub base_url: String,
    pub auth: A,
    pub max_retries: u32,
}

impl RestClient<()> {
    /// A client of the service at this address, that sends each request once.
    pub fn new(base_url: &str) -> (r: Result<RestClient<()>, UrlError>)
        ensures
            match r {
                Ok(client) => parsed_url(base_url@) == Ok::<Seq<char>, Seq<char>>(
                    client.base_url@,
                ) && client.max_retries == 0,
                Err(e) => parsed_url(base_url@) == Err::<Seq<char>, Seq<char>>(e.message@),
            },
    {
        match parse_url(base_url) {
            Ok(base_url) => Ok(RestClient { base_url, auth: (), max_retries: 0 }),
            Err(message) => Err(UrlError { message }),
        }
    }
}

impl<A> RestClient<A> {
    /// The same client with another authorisation.
    pub fn with_auth<B>(self, auth: B) -> (r: RestClient<B>)
        ensures
            r == (RestClient { base_url: self.base_url, auth, max_retries: self.max_retries }),
    {
        RestClient { base_url: self.base_url, auth, max_retries: self.max_retries }
    }

    /// The same client with another number of retries.
    pub fn with_retry(self, max_retries: u32) -> (r: RestClient<A>)
        ensures
            r == (RestClient { base_url: self.base_url, auth: self.auth, max_retries }),
    {
        RestClient { base_url: self.base_url, auth: self.auth, max_retries }
    }
}

/// A request that failed.
#[derive(Debug)]
pub enum ClientError {
    /// The service does not accept the authorisation.
    Unauthorized,
    /// The service wants no further request for some time.
    RateLimited { retry_after_secs: u64 },
    /// The service answered with an error.
    Http { status: u16, message: String, endpoint: Option<String>, body: Option<String> },
    /// The request or the answer got lost.
    Transport(String),
    /// The answer could not be read.
    Decode(String),
}

impl ClientError {
    /// What a user is told of the error.
    pub open spec fn user_message_spec(self) -> Seq<char> {
        match self {
            ClientError::Unauthorized => "unauthorized"@,
            ClientError::RateLimited { .. } => "rate limited"@,
            ClientError::Http { message, .. } => message@,
            ClientError::Transport(message) => message@,
            ClientError::Decode(message) => message@,
        }
    }

    /// What a user is told of the error.
    pub fn user_message(&self) -> (r: String)
        ensures
            r@ == self.user_message_spec(),
    {
        match self {
            ClientError::Unauthorized => "unauthorized".to_string(),
            ClientError::RateLimited { .. } => "rate limited".to_string(),
            ClientError::Http { message, .. } => message.clone(),
            ClientError::Transport(message) => message.clone(),
            ClientError::Decode(message) => message.clone(),
        }
    }
}

/// What a service or the network says went wrong is told as it is.
pub proof fn lemma_told_what_went_wrong(err: ClientError)
    ensures
        err matches ClientError::Http { message, .. } ==> err.user_message_spec() == message@,
        err matches ClientError::Transport(message) ==> err.user_message_spec() == message@,
        err matches ClientError::Decode(message) ==> err.user_message_spec() == message@,
{
}

/// A client keeps its address when it is given another authorisation or another number of retries,
/// and each of the two keeps the other.
pub proof fn lemma_client_keeps_the_rest<A, B>(
    client: RestClient<A>,
    auth: B,
    max_retries: u32,
    other: RestClient<B>,
    more: RestClient<A>,
)
    requires
        call_ensures(RestClient::<A>::with_auth::<B>, (client, auth), other),
        call_ensures(RestClient::<A>::with_retry, (client, max_retries), more),
    ensures
        other.base_url == client.base_url && other.max_retries == client.max_retries,
        other.auth == auth,
        more.base_url == client.base_url && more.auth == client.auth,
        more.max_retries == max_retries,
{
}

} // verus!
