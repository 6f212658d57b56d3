use plex_api::query::Query;
use plex_api::request::{decode_status_ok, response_error, Method, RequestBuilder,
    TimeoutPolicy};
use plex_api::error::Error;

#[test]
fn url_joins_path_and_query() {
    let q = Query::new().param("a", "1").param("b", "x y");
    let r = RequestBuilder::new(Method::Get, "/p".to_string()).with_query(q);
    assert_eq!(r.url(), "/p?a=1&b=x%20y");
    let r = RequestBuilder::new(Method::Get, "/p".to_string());
    assert_eq!(r.url(), "/p");
}

#[test]
fn headers_body_and_timeout_accumulate() {
    let r = RequestBuilder::new(Method::Post, "/p".to_string())
        .header("Accept", "application/json")
        .timeout(TimeoutPolicy::NoTimeout)
        .body("hello".to_string());
    assert_eq!(r.headers, vec![("Accept".to_string(), "application/json".to_string())]);
    assert_eq!(r.timeout, TimeoutPolicy::NoTimeout);
    assert_eq!(r.body.as_deref(), Some("hello"));
}

#[test]
fn form_encodes_and_measures_the_body() {
    let params = Query::new().param("user", "a b").param("pin", "1234");
    let r = RequestBuilder::new(Method::Post, "/p".to_string()).form(&params);
    assert_eq!(r.body.as_deref(), Some("user=a%20b&pin=1234"));
    assert_eq!(
        r.headers,
        vec![
            (
                "Content-type".to_string(),
                "application/x-www-form-urlencoded".to_string()
            ),
            ("Content-Length".to_string(), "19".to_string()),
        ]
    );
}

#[test]
fn decode_statuses_are_the_success_family() {
    assert!(decode_status_ok(200));
    assert!(decode_status_ok(201));
    assert!(decode_status_ok(202));
    assert!(!decode_status_ok(204));
    assert!(!decode_status_ok(404));
}

#[test]
fn response_error_carries_status_and_body() {
    let e = response_error(500, "broken".to_string());
    match e {
        Error::UnexpectedApiResponse { status_code, content } => {
            assert_eq!(status_code, 500);
            assert_eq!(content, "broken");
        },
        other => panic!("unexpected error: {other:?}"),
    }
}
