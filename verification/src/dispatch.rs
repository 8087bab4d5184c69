//! The single HTTP call that a run makes, described as plain data.
//!
//! Nothing here touches the network. A caller sends what [`rest_get`] or
//! [`rest_put`] describes: it opens a client, issues the verb on the URL
//! with the headers in order, attaches the body if there is one, and waits
//! for the answer. No timeout is part of the description, so the client's
//! own default decides how long an unresponsive endpoint is waited for.

use vstd::prelude::*;
use crate::structures::request::{request_for, Request};
use crate::types::{EndpointView, ListMQEndpoint};

verus! {

/// The HTTP method of a call.
#[derive(Clone, Copy, Debug, PartialEq, Eq, Structural)]
pub enum Verb {
    /// Reads a message off the queue and removes it.
    Delete,
    /// Puts a message on the queue.
    Post,
}

/// One header line: its name and its value.
pub struct Header {
    pub name: String,
    pub value: String,
}

impl View for Header {
    type V = (Seq<char>, Seq<char>);

    open spec fn view(&self) -> (Seq<char>, Seq<char>) {
        (self.name@, self.value@)
    }
}

/// A call ready to be sent.
pub struct Outgoing {
    pub verb: Verb,
    pub url: String,
    pub headers: Vec<Header>,
    pub body: Option<String>,
}

/// The text of an [`Outgoing`] call.
pub struct OutgoingView {
    pub verb: Verb,
    pub url: Seq<char>,
    pub headers: Seq<(Seq<char>, Seq<char>)>,
    pub body: Option<Seq<char>>,
}

impl View for Outgoing {
    type V = OutgoingView;

    open spec fn view(&self) -> OutgoingView {
        OutgoingView {
            verb: self.verb,
            url: self.url@,
            headers: Seq::new(self.headers@.len(), |i: int| self.headers@[i]@),
            body: match self.body {
                Some(text) => Some(text@),
                None => None,
            },
        }
    }
}

/// The three headers of every call, in the order they are set.
pub open spec fn headers_for(endpoint: EndpointView) -> Seq<(Seq<char>, Seq<char>)> {
    seq![
        ("Content-type"@, request_for(endpoint).content_type),
        ("Authorization"@, request_for(endpoint).base64),
        ("ibm-mq-rest-csrf-token"@, request_for(endpoint).csrftoken),
    ]
}

/// The call that `verb` makes on an endpoint's queue, with or without a body.
pub open spec fn outgoing_for(
    verb: Verb,
    endpoint: EndpointView,
    body: Option<Seq<char>>,
) -> OutgoingView {
    OutgoingView {
        verb,
        url: request_for(endpoint).url,
        headers: headers_for(endpoint),
        body,
    }
}

impl Outgoing {
    /// Lays a request out as a call: its URL, then its three header lines.
    pub fn of_request(verb: Verb, request: Request, body: Option<String>) -> (call: Outgoing)
        ensures
            call.verb == verb,
            call.url@ == request@.url,
            call@.headers == seq![
                ("Content-type"@, request@.content_type),
                ("Authorization"@, request@.base64),
                ("ibm-mq-rest-csrf-token"@, request@.csrftoken),
            ],
            call.body == body,
    {
        let mut headers: Vec<Header> = Vec::new();
        headers.push(Header { name: "Content-type".to_owned(), value: request.content_type });
        headers.push(Header { name: "Authorization".to_owned(), value: request.base64 });
        headers.push(Header { name: "ibm-mq-rest-csrf-token".to_owned(), value: request.csrftoken });
        let call = Outgoing { verb, url: request.url, headers, body };
        assert(call@.headers =~= seq![
            ("Content-type"@, request@.content_type),
            ("Authorization"@, request@.base64),
            ("ibm-mq-rest-csrf-token"@, request@.csrftoken),
        ]);
        call
    }
}

/// The destructive read: a `DELETE` on the first endpoint's queue, no body.
pub fn rest_get(mq: ListMQEndpoint) -> (call: Outgoing)
    requires
        mq.has_endpoint(),
    ensures
        call@ == outgoing_for(Verb::Delete, mq.endpoint(), None),
{
    let request = Request::new(&mq);
    Outgoing::of_request(Verb::Delete, request, None)
}

/// The write: a `POST` on the first endpoint's queue that carries
/// `message_load` as its body, exactly as it was entered.
pub fn rest_put(mq: ListMQEndpoint, message_load: String) -> (call: Outgoing)
    requires
        mq.has_endpoint(),
    ensures
        call@ == outgoing_for(Verb::Post, mq.endpoint(), Some(message_load@)),
{
    let request = Request::new(&mq);
    Outgoing::of_request(Verb::Post, request, Some(message_load))
}

} // verus!
