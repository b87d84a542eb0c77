use proxy_fetch::{greet, proxy_url, response_of, u16_decimal, FetchOutcome};

#[test]
fn greet_formats_exactly() {
    assert_eq!(greet("Ada"), "Hello, Ada! You've been greeted from Rust!");
}

#[test]
fn greet_empty_name() {
    assert_eq!(greet(""), "Hello, ! You've been greeted from Rust!");
}

#[test]
fn decimal_single_digits() {
    assert_eq!(u16_decimal(0), "0");
    assert_eq!(u16_decimal(7), "7");
    assert_eq!(u16_decimal(9), "9");
}

#[test]
fn decimal_multi_digits() {
    assert_eq!(u16_decimal(10), "10");
    assert_eq!(u16_decimal(8080), "8080");
    assert_eq!(u16_decimal(12345), "12345");
    assert_eq!(u16_decimal(65535), "65535");
}

#[test]
fn no_proxy_fields_means_direct() {
    assert!(proxy_url(None, None, None).is_none());
}

#[test]
fn partial_proxy_fields_are_ignored() {
    let proto = || Some(String::from("http"));
    let host = || Some(String::from("127.0.0.1"));
    let port = || Some(8080u16);
    assert!(proxy_url(proto(), None, None).is_none());
    assert!(proxy_url(None, host(), None).is_none());
    assert!(proxy_url(None, None, port()).is_none());
    assert!(proxy_url(proto(), host(), None).is_none());
    assert!(proxy_url(proto(), None, port()).is_none());
    assert!(proxy_url(None, host(), port()).is_none());
}

#[test]
fn full_triple_composes_proxy_url() {
    let r = proxy_url(
        Some(String::from("http")),
        Some(String::from("127.0.0.1")),
        Some(9),
    );
    assert_eq!(r.as_deref(), Some("http://127.0.0.1:9"));
}

#[test]
fn proxy_url_port_edges() {
    let r = proxy_url(
        Some(String::from("socks5")),
        Some(String::from("proxy.example")),
        Some(0),
    );
    assert_eq!(r.as_deref(), Some("socks5://proxy.example:0"));
    let r = proxy_url(
        Some(String::from("https")),
        Some(String::from("10.0.0.1")),
        Some(65535),
    );
    assert_eq!(r.as_deref(), Some("https://10.0.0.1:65535"));
}

#[test]
fn transport_failure_becomes_sentinel_response() {
    let r = response_of(FetchOutcome::Transport {
        error: String::from("dns error: no such host"),
    });
    assert_eq!(r.status_code, 0);
    assert_eq!(r.content, "Request error: dns error: no such host");
}

#[test]
fn body_failure_keeps_received_status() {
    let r = response_of(FetchOutcome::Body {
        status: 502,
        error: String::from("stream interrupted"),
    });
    assert_eq!(r.status_code, 502);
    assert_eq!(r.content, "Content error: stream interrupted");
}

#[test]
fn success_passes_body_through() {
    let r = response_of(FetchOutcome::Success {
        status: 200,
        body: String::from("<html>example</html>"),
    });
    assert_eq!(r.status_code, 200);
    assert_eq!(r.content, "<html>example</html>");
}

#[test]
fn success_body_may_look_like_an_error_text() {
    let r = response_of(FetchOutcome::Success {
        status: 200,
        body: String::from("Request error: just a page quoting one"),
    });
    assert_eq!(r.status_code, 200);
    assert_eq!(r.content, "Request error: just a page quoting one");
}
