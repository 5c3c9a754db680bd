use forward_proxy::config::build_config;
use forward_proxy::forward::{
    conclude, error_response, rewrite_request, Header, InboundRequest, PipelineOutcome,
    ProxyResponse,
};

fn request(pq: Option<&str>) -> InboundRequest {
    InboundRequest {
        method: String::from("GET"),
        path_and_query: pq.map(String::from),
        headers: Vec::new(),
        body: Vec::new(),
    }
}

#[test]
fn rewrite_scenario_get_foo() {
    let c = build_config("http://example.internal:8080", None).unwrap();
    let o = rewrite_request(request(Some("/foo?x=1")), &c).unwrap();
    assert_eq!(o.method, "GET");
    assert_eq!(o.uri_string(), "http://example.internal:8080/foo?x=1");
}

#[test]
fn rewrite_takes_scheme_and_authority_from_config() {
    let c = build_config("https://other.host", None).unwrap();
    let o = rewrite_request(request(Some("/x")), &c).unwrap();
    assert_eq!(o.target.scheme, "https");
    assert_eq!(o.target.authority, "other.host");
    assert_eq!(o.path_and_query, "/x");
}

#[test]
fn rewrite_defaults_to_root_path() {
    let c = build_config("http://example.internal:8080", None).unwrap();
    let o = rewrite_request(request(None), &c).unwrap();
    assert_eq!(o.path_and_query, "/");
    assert_eq!(o.uri_string(), "http://example.internal:8080/");
}

#[test]
fn rewrite_carries_headers_and_body_verbatim() {
    let c = build_config("http://example.internal:8080", None).unwrap();
    let req = InboundRequest {
        method: String::from("POST"),
        path_and_query: Some(String::from("/submit")),
        headers: vec![
            Header { name: String::from("Content-Type"), value: b"text/plain".to_vec() },
            Header { name: String::from("X-Trace"), value: b"abc".to_vec() },
        ],
        body: b"payload".to_vec(),
    };
    let o = rewrite_request(req, &c).unwrap();
    assert_eq!(o.method, "POST");
    assert_eq!(o.headers.len(), 2);
    assert_eq!(o.headers[0].name, "Content-Type");
    assert_eq!(o.headers[0].value, b"text/plain".to_vec());
    assert_eq!(o.headers[1].name, "X-Trace");
    assert_eq!(o.headers[1].value, b"abc".to_vec());
    assert_eq!(o.body, b"payload".to_vec());
}

#[test]
fn rewrite_rejects_unusable_path_and_query() {
    let c = build_config("http://example.internal:8080", None).unwrap();
    assert!(rewrite_request(request(Some("no-slash")), &c).is_err());
    assert!(rewrite_request(request(Some("/a b")), &c).is_err());
    assert!(rewrite_request(request(Some("")), &c).is_err());
}

#[test]
fn delivered_response_passes_through_unaltered() {
    let resp = ProxyResponse {
        status: 200,
        headers: vec![Header { name: String::from("X-Test"), value: b"1".to_vec() }],
        body: b"hello".to_vec(),
    };
    let r = conclude(PipelineOutcome::Delivered(resp));
    assert_eq!(r.status, 200);
    assert_eq!(r.headers.len(), 1);
    assert_eq!(r.headers[0].name, "X-Test");
    assert_eq!(r.headers[0].value, b"1".to_vec());
    assert_eq!(r.body, b"hello".to_vec());
}

#[test]
fn send_failure_maps_to_500_empty() {
    let r = conclude(PipelineOutcome::SendFailed(String::from("connection refused")));
    assert_eq!(r.status, 500);
    assert_eq!(r.headers.len(), 0);
    assert_eq!(r.body.len(), 0);
}

#[test]
fn rewrite_failure_maps_to_500_empty() {
    let r = conclude(PipelineOutcome::RewriteFailed(String::from("bad path")));
    assert_eq!(r.status, 500);
    assert_eq!(r.headers.len(), 0);
    assert_eq!(r.body.len(), 0);
}

#[test]
fn error_response_is_500_empty() {
    let r = error_response();
    assert_eq!(r.status, 500);
    assert_eq!(r.headers.len(), 0);
    assert_eq!(r.body.len(), 0);
}
