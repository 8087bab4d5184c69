//! The URL and header values of a request.

use vstd::prelude::*;
use crate::encoding::{base64_text, encode};
use crate::structures::login::Options;
use crate::types::{EndpointView, ListMQEndpoint};

verus! {

/// What one call to the messaging interface carries besides verb and body.
pub struct Request {
    pub url: String,
    pub base64: String,
    pub content_type: String,
    pub csrftoken: String,
}

/// The text of each field of a [`Request`].
pub struct RequestView {
    pub url: Seq<char>,
    pub base64: Seq<char>,
    pub content_type: Seq<char>,
    pub csrftoken: Seq<char>,
}

impl View for Request {
    type V = RequestView;

    open spec fn view(&self) -> RequestView {
        RequestView {
            url: self.url@,
            base64: self.base64@,
            content_type: self.content_type@,
            csrftoken: self.csrftoken@,
        }
    }
}

/// The address of a queue's message resource. Host, port, queue manager and
/// queue name are inserted as they are, without escaping.
pub open spec fn url_text(
    host: Seq<char>,
    port: Seq<char>,
    qmgr: Seq<char>,
    queue_name: Seq<char>,
) -> Seq<char> {
    "https://"@ + host + ":"@ + port + "/ibmmq/rest/v1/messaging/qmgr/"@ + qmgr + "/queue/"@
        + queue_name + "/message"@
}

/// User name and password joined by a colon. A colon inside either is kept.
pub open spec fn credentials_text(user: Seq<char>, password: Seq<char>) -> Seq<char> {
    user + ":"@ + password
}

/// The value of a basic `Authorization` header around encoded credentials.
pub open spec fn authorization_text(encoded: Seq<char>) -> Seq<char> {
    "Basic "@ + encoded
}

/// The request that an endpoint determines.
pub open spec fn request_for(endpoint: EndpointView) -> RequestView {
    RequestView {
        url: url_text(endpoint.host, endpoint.port, endpoint.qmgr, endpoint.queue_name),
        base64: authorization_text(
            base64_text(credentials_text(endpoint.app_user, endpoint.app_password)),
        ),
        content_type: "application/json"@,
        csrftoken: endpoint.csrftoken,
    }
}

impl Request {
    /// The URL of the message resource of the first endpoint's queue.
    pub fn url(mq: &ListMQEndpoint) -> (url: String)
        requires
            mq.has_endpoint(),
        ensures
            url@ == url_text(
                mq.endpoint().host,
                mq.endpoint().port,
                mq.endpoint().qmgr,
                mq.endpoint().queue_name,
            ),
    {
        let options = Options::of_endpoint(&mq.list_of_mq_endpoints[0]);
        "https://".to_owned()
            .concat(options.hostname.as_str())
            .concat(":")
            .concat(options.port.as_str())
            .concat("/ibmmq/rest/v1/messaging/qmgr/")
            .concat(options.qmgr.as_str())
            .concat("/queue/")
            .concat(options.queue_name.as_str())
            .concat("/message")
    }

    /// The text that is encoded for basic authentication.
    pub fn credentials(user: &str, password: &str) -> (joined: String)
        ensures
            joined@ == credentials_text(user@, password@),
    {
        user.to_owned().concat(":").concat(password)
    }

    /// Puts the scheme's name in front of credentials that are already encoded.
    pub fn authorization(encoded: &str) -> (value: String)
        ensures
            value@ == authorization_text(encoded@),
    {
        "Basic ".to_owned().concat(encoded)
    }

    /// The `Authorization` header value for the first endpoint's user.
    pub fn base64(mq: &ListMQEndpoint) -> (value: String)
        requires
            mq.has_endpoint(),
        ensures
            value@ == authorization_text(
                base64_text(credentials_text(mq.endpoint().app_user, mq.endpoint().app_password)),
            ),
    {
        let endpoint = &mq.list_of_mq_endpoints[0];
        let joined = Request::credentials(endpoint.app_user.as_str(), endpoint.app_password.as_str());
        let encoded = encode(joined.as_str());
        Request::authorization(encoded.as_str())
    }

    /// The media type of every request, whatever the endpoint.
    pub fn content_type() -> (value: String)
        ensures
            value@ == "application/json"@,
    {
        "application/json".to_owned()
    }

    /// The first endpoint's CSRF token, unchanged, empty or not.
    pub fn csrftoken(mq: &ListMQEndpoint) -> (value: String)
        requires
            mq.has_endpoint(),
        ensures
            value@ == mq.endpoint().csrftoken,
    {
        mq.list_of_mq_endpoints[0].csrftoken.clone()
    }

    /// Everything the first endpoint determines of a request.
    pub fn new(mq: &ListMQEndpoint) -> (request: Request)
        requires
            mq.has_endpoint(),
        ensures
            request@ == request_for(mq.endpoint()),
    {
        Request {
            url: Request::url(mq),
            base64: Request::base64(mq),
            content_type: Request::content_type(),
            csrftoken: Request::csrftoken(mq),
        }
    }
}

} // verus!
