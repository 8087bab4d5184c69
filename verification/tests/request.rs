use mq_rest::structures::login::Options;
use mq_rest::structures::request::Request;
use mq_rest::types::{ListMQEndpoint, MQEndpoint};

fn endpoint(
    host: &str,
    port: &str,
    csrftoken: &str,
    qmgr: &str,
    queue_name: &str,
    app_user: &str,
    app_password: &str,
) -> MQEndpoint {
    MQEndpoint {
        host: host.to_string(),
        port: port.to_string(),
        csrftoken: csrftoken.to_string(),
        qmgr: qmgr.to_string(),
        queue_name: queue_name.to_string(),
        app_user: app_user.to_string(),
        app_password: app_password.to_string(),
    }
}

fn single(e: MQEndpoint) -> ListMQEndpoint {
    ListMQEndpoint { list_of_mq_endpoints: vec![e] }
}

fn local() -> ListMQEndpoint {
    single(endpoint("localhost", "9443", "token", "QM1", "Q1", "app", "pass"))
}

#[test]
fn url_of_local_queue() {
    assert_eq!(
        Request::url(&local()),
        "https://localhost:9443/ibmmq/rest/v1/messaging/qmgr/QM1/queue/Q1/message"
    );
}

#[test]
fn url_follows_the_pattern() {
    let cases = [
        ("mq.example.com", "443", "PROD.QM", "ORDERS.IN"),
        ("10.0.0.7", "9443", "qm", "q"),
        ("h", "1", "M", "N"),
    ];
    for (host, port, qmgr, queue) in cases {
        let mq = single(endpoint(host, port, "", qmgr, queue, "u", "p"));
        assert_eq!(
            Request::url(&mq),
            format!("https://{host}:{port}/ibmmq/rest/v1/messaging/qmgr/{qmgr}/queue/{queue}/message")
        );
    }
}

#[test]
fn url_does_not_escape() {
    let mq = single(endpoint("my host", "94 43", "", "Q/M?", "a b&c#d", "u", "p"));
    assert_eq!(
        Request::url(&mq),
        "https://my host:94 43/ibmmq/rest/v1/messaging/qmgr/Q/M?/queue/a b&c#d/message"
    );
}

#[test]
fn url_with_empty_parts() {
    let mq = single(endpoint("", "", "", "", "", "", ""));
    assert_eq!(Request::url(&mq), "https://:/ibmmq/rest/v1/messaging/qmgr//queue//message");
}

#[test]
fn url_ignores_credentials_and_token() {
    let a = single(endpoint("h", "1", "t1", "m", "q", "alice", "one"));
    let b = single(endpoint("h", "1", "t2", "m", "q", "bob", "two"));
    assert_eq!(Request::url(&a), Request::url(&b));
}

#[test]
fn authorization_of_app_pass() {
    assert_eq!(Request::base64(&local()), "Basic YXBwOnBhc3M=");
}

#[test]
fn authorization_is_not_the_plain_credentials() {
    let value = Request::base64(&local());
    assert_ne!(value, "Basic app:pass");
    assert_eq!(value, format!("Basic {}", base64::encode("app:pass")));
}

#[test]
fn authorization_keeps_colons_in_credentials() {
    let mq = single(endpoint("h", "1", "", "m", "q", "user", "pa:ss"));
    assert_eq!(Request::base64(&mq), "Basic dXNlcjpwYTpzcw==");
    let mq = single(endpoint("h", "1", "", "m", "q", "a:b", "c"));
    assert_eq!(Request::base64(&mq), "Basic YTpiOmM=");
}

#[test]
fn authorization_of_empty_credentials() {
    let mq = single(endpoint("h", "1", "", "m", "q", "", ""));
    assert_eq!(Request::base64(&mq), "Basic Og==");
    let mq = single(endpoint("h", "1", "", "m", "q", "app", ""));
    assert_eq!(Request::base64(&mq), "Basic YXBwOg==");
}

#[test]
fn authorization_encodes_utf8_bytes() {
    let mq = single(endpoint("h", "1", "", "m", "q", "\u{fc}", "p"));
    assert_eq!(Request::base64(&mq), "Basic w7w6cA==");
}

#[test]
fn credentials_are_joined_by_a_colon() {
    assert_eq!(Request::credentials("app", "pass"), "app:pass");
    assert_eq!(Request::credentials("", ""), ":");
    assert_eq!(Request::credentials("a:b", "c"), "a:b:c");
}

#[test]
fn authorization_prefixes_the_scheme() {
    assert_eq!(Request::authorization("YXBwOnBhc3M="), "Basic YXBwOnBhc3M=");
    assert_eq!(Request::authorization(""), "Basic ");
}

#[test]
fn content_type_is_json() {
    assert_eq!(Request::content_type(), "application/json");
    assert_eq!(Request::content_type(), Request::content_type());
}

#[test]
fn csrf_token_is_passed_through() {
    assert_eq!(Request::csrftoken(&local()), "token");
    let mq = single(endpoint("h", "1", " a b\t=;\u{e9} ", "m", "q", "u", "p"));
    assert_eq!(Request::csrftoken(&mq), " a b\t=;\u{e9} ");
}

#[test]
fn csrf_token_may_be_empty() {
    let mq = single(endpoint("h", "1", "", "m", "q", "u", "p"));
    assert_eq!(Request::csrftoken(&mq), "");
}

#[test]
fn request_collects_all_four_values() {
    let request = Request::new(&local());
    assert_eq!(
        request.url,
        "https://localhost:9443/ibmmq/rest/v1/messaging/qmgr/QM1/queue/Q1/message"
    );
    assert_eq!(request.base64, "Basic YXBwOnBhc3M=");
    assert_eq!(request.content_type, "application/json");
    assert_eq!(request.csrftoken, "token");
}

#[test]
fn only_the_first_endpoint_counts() {
    let mq = ListMQEndpoint {
        list_of_mq_endpoints: vec![
            endpoint("first", "1", "t1", "M1", "Q1", "app", "pass"),
            endpoint("second", "2", "t2", "M2", "Q2", "other", "secret"),
        ],
    };
    let request = Request::new(&mq);
    assert_eq!(request.url, "https://first:1/ibmmq/rest/v1/messaging/qmgr/M1/queue/Q1/message");
    assert_eq!(request.base64, "Basic YXBwOnBhc3M=");
    assert_eq!(request.csrftoken, "t1");
}

#[test]
fn first_endpoint_is_found_or_missing() {
    let mq = local();
    let found = mq.first().expect("one endpoint");
    assert_eq!(found.host, "localhost");
    assert_eq!(found.app_password, "pass");
    let empty = ListMQEndpoint { list_of_mq_endpoints: Vec::new() };
    assert!(empty.first().is_none());
}

#[test]
fn clones_keep_every_field() {
    let mq = ListMQEndpoint {
        list_of_mq_endpoints: vec![
            endpoint("a", "1", "t", "M", "Q", "u", "p"),
            endpoint("b", "2", "s", "N", "R", "v", "w"),
        ],
    };
    let copy = mq.clone();
    assert_eq!(copy.list_of_mq_endpoints.len(), 2);
    for (x, y) in copy.list_of_mq_endpoints.iter().zip(mq.list_of_mq_endpoints.iter()) {
        assert_eq!(x.host, y.host);
        assert_eq!(x.port, y.port);
        assert_eq!(x.csrftoken, y.csrftoken);
        assert_eq!(x.qmgr, y.qmgr);
        assert_eq!(x.queue_name, y.queue_name);
        assert_eq!(x.app_user, y.app_user);
        assert_eq!(x.app_password, y.app_password);
    }
    let one = mq.list_of_mq_endpoints[1].clone();
    assert_eq!(one.host, "b");
    assert_eq!(one.app_password, "w");
}

#[test]
fn default_options_are_empty() {
    let options = Options::default();
    assert_eq!(options.hostname, "");
    assert_eq!(options.port, "");
    assert_eq!(options.qmgr, "");
    assert_eq!(options.queue_name, "");
    assert_eq!(options.app_user, "");
    assert_eq!(options.app_pass, "");
}

#[test]
fn options_fields_are_written_one_by_one() {
    let mut options = Options::default();
    *options.hostname_mut() = "localhost".to_string();
    assert_eq!(options.hostname, "localhost");
    assert_eq!(options.port, "");
    *options.port_mut() = "9443".to_string();
    *options.qmgr_mut() = "QM1".to_string();
    *options.queue_name_mut() = "Q1".to_string();
    *options.app_user_mut() = "app".to_string();
    *options.app_pass_mut() = "pass".to_string();
    assert_eq!(options.hostname, "localhost");
    assert_eq!(options.port, "9443");
    assert_eq!(options.qmgr, "QM1");
    assert_eq!(options.queue_name, "Q1");
    assert_eq!(options.app_user, "app");
    assert_eq!(options.app_pass, "pass");
    options.port_mut().push('0');
    assert_eq!(options.port, "94430");
    assert_eq!(options.qmgr, "QM1");
}

#[test]
fn options_are_taken_from_an_endpoint() {
    let options = Options::of_endpoint(&endpoint("h", "1", "t", "M", "Q", "u", "p"));
    assert_eq!(options.hostname, "h");
    assert_eq!(options.port, "1");
    assert_eq!(options.qmgr, "M");
    assert_eq!(options.queue_name, "Q");
    assert_eq!(options.app_user, "u");
    assert_eq!(options.app_pass, "p");
}
