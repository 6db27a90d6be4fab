use tui_client::endpoints::EndpointBase;

fn base(scheme: &str, authority: &str) -> EndpointBase {
    EndpointBase::new(String::from(scheme), String::from(authority))
}

#[test]
fn ws_becomes_http() {
    assert_eq!(base("ws", "127.0.0.1:20000").http_base(), "http://127.0.0.1:20000");
}

#[test]
fn wss_becomes_https() {
    assert_eq!(base("wss", "example.com").http_base(), "https://example.com");
}

#[test]
fn other_schemes_are_kept() {
    assert_eq!(base("http", "example.com").http_base(), "http://example.com");
    assert_eq!(base("unix", "sock").http_base(), "unix://sock");
}

#[test]
fn clear_endpoint() {
    assert_eq!(base("ws", "127.0.0.1:20000").clear_url(), "http://127.0.0.1:20000/clear");
}

#[test]
fn resize_endpoint_carries_the_size() {
    assert_eq!(
        base("ws", "127.0.0.1:20000").resize_url(80, 24),
        "http://127.0.0.1:20000/resize?cols=80&rows=24"
    );
}

#[test]
fn resize_endpoint_at_the_largest_size() {
    assert_eq!(
        base("wss", "h").resize_url(u16::MAX, u16::MAX),
        "https://h/resize?cols=65535&rows=65535"
    );
}

#[test]
fn raw_endpoint_carries_the_line_count() {
    assert_eq!(base("ws", "127.0.0.1:20000").raw_url(200), "http://127.0.0.1:20000/raw?lines=200");
}

#[test]
fn channel_path_query_and_fragment_are_dropped() {
    // The base is built from the channel address's scheme and authority
    // alone, as the process hands them over after parsing the address.
    let parsed = url::Url::parse("ws://user@host.test:9001/ws/session?token=SECRET-REDACTED#frag")
        .unwrap();
    let authority = &parsed[url::Position::BeforeUsername..url::Position::AfterPort];
    let b = base(parsed.scheme(), authority);
    assert_eq!(b.clear_url(), "http://user@host.test:9001/clear");
    assert_eq!(b.raw_url(200), "http://user@host.test:9001/raw?lines=200");
}
