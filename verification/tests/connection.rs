use roomtemp::grpc_client::{prepare_connection, ConnectionSlot, GrpcClientError};
use roomtemp::settings::Settings;

fn settings(url: &str, token: &str, use_proxies: bool, proxy_url: &str) -> Settings {
    Settings {
        id: 1,
        url: url.into(),
        access_token: token.into(),
        use_proxies,
        proxy_url: proxy_url.into(),
    }
}

#[test]
fn new_rejects_invalid_url() {
    let s = settings("not-a-url", "t", false, "");
    let res = prepare_connection(&s);
    assert!(matches!(res, Err(GrpcClientError::InvalidUrl)));
}

#[test]
fn new_rejects_invalid_auth_token() {
    // a token containing a NUL cannot be carried in an HTTP header
    let s = settings("https://example.com", "bad\0token", false, "");
    let res = prepare_connection(&s);
    assert!(matches!(res, Err(GrpcClientError::InvalidAuthToken)));
}

#[test]
fn new_rejects_invalid_proxy_url() {
    let s = settings("https://example.com", "t", true, "not a uri");
    let res = prepare_connection(&s);
    assert!(matches!(res, Err(GrpcClientError::InvalidUri)));
}

#[test]
fn rejects_url_without_tls_domain() {
    // parses as a URL but has no host to use as a TLS server name
    let s = settings("data:text/plain,hello", "t", false, "");
    let res = prepare_connection(&s);
    assert!(matches!(res, Err(GrpcClientError::InvalidTlsDomain)));
}

#[test]
fn plan_carries_bearer_header_and_domain() {
    let s = settings("https://example.com", "abc", false, "");
    let plan = prepare_connection(&s).expect("plan");
    assert_eq!(plan.bearer_token, "Bearer abc");
    assert_eq!(plan.tls_domain, "example.com");
    assert_eq!(plan.endpoint, "https://example.com/");
    assert!(plan.proxy.is_none());
}

#[test]
fn plan_carries_proxy_when_enabled() {
    let s = settings("https://example.com", "t", true, "http://proxy.local:8080");
    let plan = prepare_connection(&s).expect("plan");
    assert_eq!(plan.proxy.as_deref(), Some("http://proxy.local:8080"));
}

#[test]
fn slot_holds_handle_of_second_connect() {
    let mut slot = ConnectionSlot::new();
    assert!(slot.current().is_none());

    let first = prepare_connection(&settings("https://one.example", "t1", false, "")).expect("plan");
    let second =
        prepare_connection(&settings("https://two.example", "t2", false, "")).expect("plan");

    slot.apply_connect(Ok(first)).expect("stored");
    slot.apply_connect(Ok(second.clone())).expect("stored");
    assert_eq!(slot.current().as_ref(), Some(&second));
}

#[test]
fn failed_connect_leaves_slot_unchanged() {
    let mut slot = ConnectionSlot::new();
    let first = prepare_connection(&settings("https://one.example", "t1", false, "")).expect("plan");
    slot.apply_connect(Ok(first.clone())).expect("stored");

    let res = slot.apply_connect(Err(GrpcClientError::Transport("dial failed".into())));
    assert!(matches!(res, Err(GrpcClientError::Transport(_))));
    assert_eq!(slot.current().as_ref(), Some(&first));
}
