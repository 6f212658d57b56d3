use plex_api::client::{HttpClient, HttpClientBuilder};
use plex_api::request::Method;

fn builder() -> HttpClientBuilder {
    HttpClientBuilder::new(
        "http://127.0.0.1:32400".to_string(),
        "Linux".to_string(),
        "6.1".to_string(),
        "testhost".to_string(),
        "client-1".to_string(),
        "plex_api".to_string(),
        "0.1.0".to_string(),
    )
}

fn header<'a>(headers: &'a [(String, String)], key: &str) -> Option<&'a str> {
    headers.iter().find(|h| h.0 == key).map(|h| h.1.as_str())
}

#[test]
fn unauthenticated_client_sends_no_token() {
    let client = builder().build();
    assert!(!client.is_authenticated());
    let headers = client.prepare_headers();
    assert!(header(&headers, "X-Plex-Token").is_none());
    assert_eq!(header(&headers, "X-Plex-Client-Identifier"), Some("client-1"));
    assert_eq!(header(&headers, "X-Plex-Provides"), Some("controller"));
    assert_eq!(header(&headers, "X-Plex-Platform"), Some("Linux"));
    assert_eq!(header(&headers, "X-Plex-Device"), Some("Linux"));
    assert_eq!(header(&headers, "X-Plex-Sync-Version"), Some("2"));
    assert_eq!(header(&headers, "X-Plex-Model"), Some("hosted"));
    assert!(header(&headers, "X-Plex-Target-Client-Identifier").is_none());
}

#[test]
fn token_rides_along_once_set() {
    let client = builder().set_x_plex_token("SECRET-REDACTED".to_string()).build();
    assert!(client.is_authenticated());
    assert_eq!(client.x_plex_token(), "SECRET-REDACTED");
    let headers = client.prepare_headers();
    assert_eq!(header(&headers, "X-Plex-Token"), Some("SECRET-REDACTED"));
}

#[test]
fn minimal_headers_leave_capabilities_out() {
    let client = builder().build();
    let headers = client.prepare_headers_min();
    assert_eq!(headers.len(), 1);
    assert_eq!(header(&headers, "X-Plex-Client-Identifier"), Some("client-1"));
    assert!(header(&headers, "X-Plex-Provides").is_none());
}

#[test]
fn request_builders_bind_method_and_headers() {
    let client = builder().build();
    let r = client.get("/downloadQueue/1/items".to_string());
    assert_eq!(r.method, Method::Get);
    assert_eq!(r.path, "/downloadQueue/1/items");
    assert!(header(&r.headers, "X-Plex-Provides").is_some());
    let r = client.postm("/downloadQueue".to_string());
    assert_eq!(r.method, Method::Post);
    assert!(header(&r.headers, "X-Plex-Provides").is_none());
    let r = client.head("/x".to_string());
    assert_eq!(r.method, Method::Head);
    let r = client.delete("/x".to_string());
    assert_eq!(r.method, Method::Delete);
    let r = client.put("/x".to_string());
    assert_eq!(r.method, Method::Put);
}

#[test]
fn provides_and_features_join_with_commas() {
    let client = builder()
        .set_x_plex_provides(&vec!["controller".to_string(), "player".to_string()])
        .set_x_plex_features(&vec!["a".to_string(), "b".to_string(), "c".to_string()])
        .build();
    assert_eq!(client.x_plex_provides, "controller,player");
    assert_eq!(client.x_plex_features, "a,b,c");
}

#[test]
fn builder_setters_replace_single_fields() {
    let client = HttpClientBuilder::from(builder().build())
        .set_x_plex_platform("Generic".to_string())
        .set_x_plex_device_name("other".to_string())
        .set_api_url("http://10.0.0.2:32400".to_string())
        .build();
    assert_eq!(client.x_plex_platform, "Generic");
    assert_eq!(client.x_plex_device_name, "other");
    assert_eq!(client.api_url, "http://10.0.0.2:32400");
    // Untouched fields stay.
    assert_eq!(client.x_plex_client_identifier, "client-1");
    let client2: HttpClient = client.clone().set_x_plex_token("t".to_string());
    assert!(client2.is_authenticated());
}
