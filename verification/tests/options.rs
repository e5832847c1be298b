use std::time::Duration;
use unai::options::{Header, Headers, HttpTransport, SecretString, TransportOptions};

fn header(name: &str, value: &str) -> Header {
    Header { name: name.to_string(), value: value.to_string() }
}

fn pairs(headers: &Option<Headers>) -> Vec<(String, String)> {
    match headers {
        Some(h) => h.entries().iter().map(|h| (h.name.clone(), h.value.clone())).collect(),
        None => vec![],
    }
}

#[test]
fn a_secret_is_exposed_only_on_request() {
    let secret = SecretString::new("sk-123".to_string());
    assert_eq!(secret.expose_secret(), "sk-123");
    assert_eq!(secret.redacted(), "SecretString([REDACTED])");
    assert_eq!(secret.clone().expose_secret(), "sk-123");
    assert_eq!(SecretString::from("abc").expose_secret(), "abc");
    assert_eq!(SecretString::from("abc".to_string()).expose_secret(), "abc");
}

#[test]
fn a_transport_starts_with_its_key_only() {
    let transport = HttpTransport::new(SecretString::new("key".to_string()));
    assert_eq!(transport.api_key.as_ref().map(|k| k.expose_secret()), Some("key"));
    assert_eq!(transport.base_url, None);
    assert_eq!(transport.proxy, None);
    assert!(transport.extra_headers.is_none());
    let empty = HttpTransport::default();
    assert!(empty.api_key.is_none());
    assert!(empty.extra_headers.is_none());
}

#[test]
fn builders_set_one_field_each() {
    let transport = HttpTransport::new(SecretString::new("key".to_string()))
        .with_base_url("https://api.example.com".to_string())
        .with_proxy("http://proxy:8080".to_string());
    assert_eq!(transport.base_url.as_deref(), Some("https://api.example.com"));
    assert_eq!(transport.proxy.as_deref(), Some("http://proxy:8080"));
    assert_eq!(transport.api_key.as_ref().map(|k| k.expose_secret()), Some("key"));
    assert!(transport.extra_headers.is_none());
}

#[test]
fn a_header_of_the_same_name_is_replaced() {
    let transport = HttpTransport::default()
        .with_header("X-A".to_string(), "1".to_string())
        .with_header("X-B".to_string(), "2".to_string())
        .with_header("X-A".to_string(), "3".to_string());
    assert_eq!(
        pairs(&transport.extra_headers),
        vec![("X-A".to_string(), "3".to_string()), ("X-B".to_string(), "2".to_string())]
    );
}

#[test]
fn extra_headers_replace_what_was_there() {
    let transport = HttpTransport::default()
        .with_header("Old".to_string(), "x".to_string())
        .with_extra_headers(Headers::from_list(vec![
            header("A", "1"),
            header("B", "2"),
            header("A", "3"),
        ]));
    assert_eq!(
        pairs(&transport.extra_headers),
        vec![("A".to_string(), "3".to_string()), ("B".to_string(), "2".to_string())]
    );
    let none = HttpTransport::default().with_extra_headers(Headers::new());
    assert_eq!(pairs(&none.extra_headers), vec![]);
    assert!(none.extra_headers.is_some());
}

#[test]
fn setting_a_header_adds_or_replaces() {
    let headers = Headers::from_list(vec![header("a", "1")])
        .with("b".to_string(), "2".to_string())
        .with("a".to_string(), "9".to_string());
    let entries = headers.entries();
    assert_eq!(entries.len(), 2);
    assert_eq!(entries[0].value, "9");
    assert_eq!(entries[1].name, "b");
    assert_eq!(Headers::new().entries().len(), 0);
}

#[test]
fn transport_options_take_a_timeout() {
    let options = TransportOptions::new(7u8);
    assert_eq!(options.timeout, None);
    assert_eq!(options.provider, 7);
    let options = options.with_timeout(Duration::from_secs(30));
    assert_eq!(options.timeout, Some(Duration::from_secs(30)));
    assert_eq!(options.provider, 7);
}
