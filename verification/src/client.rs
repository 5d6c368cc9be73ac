//! The transport's rules: what a request carries, and what an answer means.
//! Sending is the caller's part.

use vstd::prelude::*;
use crate::error::{ErrorView, LinearError};

verus! {

/// Where every operation is sent.
pub const API_ENDPOINT: &'static str = "https://api.linear.app/graphql";

/// The message of a refusal whose body could not be read.
pub const UNREAD_BODY: &'static str = "<failed to read response body>";

/// A header of a request.
pub struct Header {
    pub name: String,
    pub value: String,
}

/// A client of the service: it holds the credential that every request carries.
pub struct LinearClient {
    api_key: String,
}

/// One application-level error of an answer.
pub struct GraphQLError {
    pub message: String,
}

/// The envelope of every answer: data, errors, or both.
pub struct GraphQLResponse<T> {
    pub data: Option<T>,
    pub errors: Option<Vec<GraphQLError>>,
}

/// What came back in an answer's body.
pub enum Body<T> {
    /// The body could not be read.
    Unread,
    /// The body as text, not decoded.
    Text(String),
    /// The body could not be decoded as an envelope; holds the codec's message.
    Undecodable(String),
    /// The body, decoded.
    Envelope(GraphQLResponse<T>),
}

/// What became of a request.
pub enum Reply<T> {
    /// No answer came; holds the transport's message.
    Unsent { reason: String },
    /// An answer came with this HTTP status.
    Answered { status: u16, body: Body<T> },
}

/// A status in the success range of HTTP.
pub open spec fn success(status: u16) -> bool {
    200 <= status < 300
}

/// The messages of a list of errors, in order.
pub open spec fn messages_of(errors: Seq<GraphQLError>) -> Seq<Seq<char>> {
    Seq::new(errors.len(), |i: int| errors[i].message@)
}

/// What an envelope means: a list of errors, even an empty one, is a failure
/// whatever the data; without one, missing data is a failure.
pub open spec fn envelope_outcome<T>(envelope: GraphQLResponse<T>) -> Result<T, ErrorView> {
    match envelope.errors {
        Some(errors) => Err(ErrorView::GraphQL { messages: messages_of(errors@) }),
        None => match envelope.data {
            Some(data) => Ok(data),
            None => Err(ErrorView::EmptyResponse),
        },
    }
}

/// What a reply means.
pub open spec fn reply_outcome<T>(reply: Reply<T>) -> Result<T, ErrorView> {
    match reply {
        Reply::Unsent { reason } => Err(ErrorView::Http(reason@)),
        Reply::Answered { status, body } => if !success(status) {
            Err(
                ErrorView::ApiError {
                    status,
                    message: match body {
                        Body::Text(text) => text@,
                        _ => UNREAD_BODY@,
                    },
                },
            )
        } else {
            match body {
                Body::Envelope(envelope) => envelope_outcome(envelope),
                Body::Undecodable(reason) => Err(ErrorView::Http(reason@)),
                _ => Err(ErrorView::EmptyResponse),
            }
        },
    }
}

/// Whether a result is the outcome that the rules give.
pub open spec fn is_outcome<T>(r: Result<T, LinearError>, outcome: Result<T, ErrorView>) -> bool {
    match outcome {
        Ok(data) => r == Ok::<T, LinearError>(data),
        Err(view) => r matches Err(e) && e@ == view,
    }
}

/// Whether a status is in the success range.
pub fn is_success(status: u16) -> (r: bool)
    ensures
        r == success(status),
{
    200 <= status && status < 300
}

/// Reads an envelope: its data, or the failure it reports.
pub fn unwrap_envelope<T>(envelope: GraphQLResponse<T>) -> (r: Result<T, LinearError>)
    ensures
        is_outcome(r, envelope_outcome(envelope)),
{
    match envelope.errors {
        Some(errors) => {
            let mut messages: Vec<String> = Vec::new();
            let mut i: usize = 0;
            while i < errors.len()
                invariant
                    i <= errors.len(),
                    messages@.len() == i,
                    forall|j: int| 0 <= j < i ==> messages@[j]@ == errors@[j].message@,
                decreases errors.len() - i,
            {
                messages.push(errors[i].message.clone());
                i += 1;
            }
            let e = LinearError::GraphQL { messages };
            assert(e@->GraphQL_messages =~= messages_of(errors@));
            Err(e)
        },
        None => match envelope.data {
            Some(data) => Ok(data),
            None => Err(LinearError::EmptyResponse),
        },
    }
}

/// Reads a reply: the data of a successful answer, or the failure. No
/// request is repeated: the first failure is the result.
pub fn interpret<T>(reply: Reply<T>) -> (r: Result<T, LinearError>)
    ensures
        is_outcome(r, reply_outcome(reply)),
{
    match reply {
        Reply::Unsent { reason } => Err(LinearError::Http(reason)),
        Reply::Answered { status, body } => {
            if !is_success(status) {
                let message = match body {
                    Body::Text(text) => text,
                    _ => String::from_str(UNREAD_BODY),
                };
                Err(LinearError::ApiError { status, message })
            } else {
                match body {
                    Body::Envelope(envelope) => unwrap_envelope(envelope),
                    Body::Undecodable(reason) => Err(LinearError::Http(reason)),
                    _ => Err(LinearError::EmptyResponse),
                }
            }
        },
    }
}

impl LinearClient {
    /// The credential.
    pub closed spec fn key(&self) -> Seq<char> {
        self.api_key@
    }

    /// A client that authenticates with `api_key`.
    pub fn new(api_key: String) -> (c: LinearClient)
        ensures
            c.key() == api_key@,
    {
        LinearClient { api_key }
    }

    /// The credential.
    pub fn api_key(&self) -> (k: &str)
        ensures
            k@ == self.key(),
    {
        self.api_key.as_str()
    }

    /// The headers of every request: the credential and the content type.
    pub fn headers(&self) -> (h: Vec<Header>)
        ensures
            h@.len() == 2,
            h@[0].name@ == "Authorization"@,
            h@[0].value@ == self.key(),
            h@[1].name@ == "Content-Type"@,
            h@[1].value@ == "application/json"@,
    {
        let mut h: Vec<Header> = Vec::new();
        h.push(Header { name: String::from_str("Authorization"), value: self.api_key.clone() });
        h.push(
            Header {
                name: String::from_str("Content-Type"),
                value: String::from_str("application/json"),
            },
        );
        h
    }
}

} // verus!
