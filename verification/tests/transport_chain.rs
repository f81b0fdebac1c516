use kube_watch::error::TransportError;
use kube_watch::transport::{
    rest_client_for, BearerTokenClient, Config, Header, Request, RestClient, RoundTripper, Transport,
};
use std::cell::RefCell;
use std::rc::Rc;

#[derive(Clone)]
struct Recorder {
    seen: Rc<RefCell<Vec<Request>>>,
    answer: Result<u16, TransportError>,
}

impl Recorder {
    fn new(answer: Result<u16, TransportError>) -> Recorder {
        Recorder { seen: Rc::new(RefCell::new(Vec::new())), answer }
    }

    fn only_request(&self) -> Request {
        let seen = self.seen.borrow();
        assert_eq!(seen.len(), 1);
        seen[0].clone()
    }
}

impl RoundTripper for Recorder {
    type Response = u16;

    fn round_trip(&self, request: Request) -> Result<u16, TransportError> {
        self.seen.borrow_mut().push(request);
        self.answer.clone()
    }
}

fn name(text: &str) -> String {
    text.to_string()
}

#[test]
fn bearer_link_adds_the_credential() {
    let base = Recorder::new(Ok(200));
    let link = BearerTokenClient::new(base.clone(), "s3cr3t");
    let result = link.round_trip(Request::get(name("https://host/api/v1")));
    assert_eq!(result, Ok(200));
    let sent = base.only_request();
    assert_eq!(sent.url, "https://host/api/v1");
    assert_eq!(sent.header(&name("authorization")), Some(name("Bearer s3cr3t")));
    assert_eq!(sent.headers, vec![Header { name: name("authorization"), value: name("Bearer s3cr3t") }]);
}

#[test]
fn bearer_link_keeps_other_headers_and_replaces_its_own() {
    let base = Recorder::new(Ok(200));
    let link = BearerTokenClient::new(base.clone(), "new");
    let mut request = Request::get(name("https://host/x"));
    request.set_header(name("accept"), name("application/json"));
    request.set_header(name("authorization"), name("Bearer old"));
    link.round_trip(request).unwrap();
    let sent = base.only_request();
    assert_eq!(sent.header(&name("accept")), Some(name("application/json")));
    assert_eq!(sent.header(&name("authorization")), Some(name("Bearer new")));
    assert_eq!(sent.header(&name("user-agent")), None);
}

#[test]
fn chain_without_auth_leaves_the_header_absent() {
    let base = Recorder::new(Ok(204));
    let chain = Transport::Direct(base.clone());
    assert_eq!(chain.round_trip(Request::get(name("https://host/y"))), Ok(204));
    let sent = base.only_request();
    assert_eq!(sent.url, "https://host/y");
    assert_eq!(sent.header(&name("authorization")), None);
    assert!(sent.headers.is_empty());
}

#[test]
fn two_links_last_credential_wins() {
    let base = Recorder::new(Ok(200));
    let chain = BearerTokenClient::new(BearerTokenClient::new(base.clone(), "inner"), "outer");
    chain.round_trip(Request::get(name("https://host/z"))).unwrap();
    assert_eq!(base.only_request().header(&name("authorization")), Some(name("Bearer inner")));
}

#[test]
fn transport_errors_come_back_as_they_are() {
    let refused = Recorder::new(Err(TransportError::Failed(name("connection refused"))));
    let link = BearerTokenClient::new(refused.clone(), "t");
    assert_eq!(
        link.round_trip(Request::get(name("https://host/"))),
        Err(TransportError::Failed(name("connection refused")))
    );
    assert_eq!(refused.seen.borrow().len(), 1);

    let slow = Recorder::new(Err(TransportError::TimedOut));
    let chain = Transport::Authorized(BearerTokenClient::new(slow.clone(), "t"));
    assert_eq!(chain.round_trip(Request::get(name("https://host/"))), Err(TransportError::TimedOut));
    assert_eq!(slow.seen.borrow().len(), 1);
}

#[test]
fn rest_client_appends_the_path() {
    let base = Recorder::new(Ok(200));
    let rest = RestClient::new(base.clone(), "https://cluster:6443");
    assert_eq!(rest.get(name("/api/v1/pods")), Ok(200));
    let sent = base.only_request();
    assert_eq!(sent.url, "https://cluster:6443/api/v1/pods");
    assert!(sent.headers.is_empty());
}

#[test]
fn client_for_config_with_token() {
    let base = Recorder::new(Ok(200));
    let config = Config {
        base_url: name("https://cluster"),
        user_agent: None,
        bearer_token: Some(name("tok")),
    };
    let rest = rest_client_for(base.clone(), &config);
    assert_eq!(rest.get(name("/api/v1/namespaces")), Ok(200));
    let sent = base.only_request();
    assert_eq!(sent.url, "https://cluster/api/v1/namespaces");
    assert_eq!(sent.header(&name("authorization")), Some(name("Bearer tok")));
}

#[test]
fn client_for_config_without_token() {
    let base = Recorder::new(Ok(200));
    let config = Config { base_url: name("https://cluster"), user_agent: Some(name("me/1.0")), bearer_token: None };
    let rest = rest_client_for(base.clone(), &config);
    assert_eq!(rest.get(name("/api/v1/namespaces")), Ok(200));
    let sent = base.only_request();
    assert_eq!(sent.url, "https://cluster/api/v1/namespaces");
    assert_eq!(sent.header(&name("authorization")), None);
}

#[test]
fn user_agent_defaults() {
    let mut config = Config { base_url: name("https://cluster"), user_agent: None, bearer_token: None };
    assert_eq!(config.effective_user_agent(), "kube-client-rs");
    config.user_agent = Some(name("me/1.0"));
    assert_eq!(config.effective_user_agent(), "me/1.0");
}

#[test]
fn header_lookup_takes_the_last_entry() {
    let mut request = Request::get(name("u"));
    assert_eq!(request.header(&name("a")), None);
    request.set_header(name("a"), name("1"));
    request.set_header(name("b"), name("2"));
    request.set_header(name("a"), name("3"));
    assert_eq!(request.header(&name("a")), Some(name("3")));
    assert_eq!(request.header(&name("b")), Some(name("2")));
    assert_eq!(request.header(&name("A")), None);
}
