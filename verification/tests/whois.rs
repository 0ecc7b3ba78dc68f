use whois_core::decimal::u16_decimal;
use whois_core::error::{error_message, WhoisError};
use whois_core::request::{HttpMethod, Provider};
use whois_core::resolver::{interpret_response, resolve, HttpResponse, Resolver};

fn ok_event(status: u16, body: &str) -> Result<HttpResponse, String> {
    Ok(HttpResponse { status, body: body.to_string() })
}

#[test]
fn form_post_request_shape() {
    let r = Provider::FormPost.build_request("example.com");
    assert_eq!(r.method, HttpMethod::Post);
    assert_eq!(r.url, "https://api.uutool.cn/whois/info/");
    assert_eq!(r.accept_language, "zh-CN,zh;q=0.9,en;q=0.8,en-GB;q=0.7,en-US;q=0.6");
    assert_eq!(r.form_fields, vec![("domain".to_string(), "example.com".to_string())]);
}

#[test]
fn query_get_request_shape() {
    let r = Provider::QueryGet.build_request("example.com");
    assert_eq!(r.method, HttpMethod::Get);
    assert_eq!(r.url, "https://api.uutool.cn/whois/api_whois_info?domainName=example.com");
    assert_eq!(r.accept_language, "zh-CN,zh;q=0.9,en;q=0.8,en-GB;q=0.7,en-US;q=0.6");
    assert!(r.form_fields.is_empty());
}

#[test]
fn query_get_reproduces_unencoded_value() {
    // The domain value carries a space, which a percent-encoding adapter
    // would rewrite; the query-GET adapter reproduces it literally.
    let r = Provider::QueryGet.build_request("a b.com");
    assert_eq!(r.url, "https://api.uutool.cn/whois/api_whois_info?domainName=a b.com");
}

#[test]
fn any_domain_is_forwarded_as_is() {
    let empty = Provider::FormPost.build_request("");
    assert_eq!(empty.form_fields, vec![("domain".to_string(), String::new())]);

    let reserved = "a/b?c&d=e#f";
    let r = Provider::FormPost.build_request(reserved);
    assert_eq!(r.form_fields, vec![("domain".to_string(), reserved.to_string())]);

    let g = Provider::QueryGet.build_request(reserved);
    assert_eq!(g.url, format!("https://api.uutool.cn/whois/api_whois_info?domainName={}", reserved));

    let e = Provider::QueryGet.build_request("");
    assert_eq!(e.url, "https://api.uutool.cn/whois/api_whois_info?domainName=");
}

#[test]
fn success_payload_passes_through_unchanged() {
    let body = "{\"domain\":\"example.com\",\"registrar\":\"X\"}";
    let r = resolve(ok_event(200, body));
    let v = r.expect("a success status with a JSON body must resolve to the payload");
    let expected: serde_json::Value = serde_json::from_str(body).unwrap();
    assert_eq!(v, expected);
    assert_eq!(v.get("domain").unwrap(), "example.com");
    assert_eq!(v.get("registrar").unwrap(), "X");
}

#[test]
fn non_success_status_reports_the_code() {
    let r = resolve(ok_event(404, "{\"domain\":\"example.com\"}"));
    assert_eq!(r, Err("request failed, status code: 404".to_string()));
}

#[test]
fn status_boundaries() {
    assert!(resolve(ok_event(200, "{}")).is_ok());
    assert!(resolve(ok_event(299, "{}")).is_ok());
    assert_eq!(resolve(ok_event(199, "{}")), Err("request failed, status code: 199".to_string()));
    assert_eq!(resolve(ok_event(300, "{}")), Err("request failed, status code: 300".to_string()));
    assert_eq!(resolve(ok_event(500, "{}")), Err("request failed, status code: 500".to_string()));
}

#[test]
fn non_json_body_is_a_parse_error() {
    let r = resolve(ok_event(200, "not json"));
    let msg = r.expect_err("a body that is not JSON must resolve to an error");
    assert!(msg.starts_with("JSON parse failed: "));
    assert!(msg.len() > "JSON parse failed: ".len());
}

#[test]
fn transport_failure_reports_the_transport_message() {
    let r = resolve(Err("connection refused".to_string()));
    assert_eq!(r, Err("request send failed: connection refused".to_string()));
}

#[test]
fn interpret_response_classifies() {
    assert!(matches!(interpret_response(200, "{}"), Ok(_)));
    assert!(matches!(interpret_response(404, "{}"), Err(WhoisError::UpstreamStatus(404))));
    assert!(matches!(interpret_response(200, "not json"), Err(WhoisError::Parse(_))));
}

#[test]
fn error_messages_follow_the_templates() {
    assert_eq!(
        error_message(&WhoisError::Transport("no route to host".to_string())),
        "request send failed: no route to host"
    );
    assert_eq!(error_message(&WhoisError::UpstreamStatus(503)), "request failed, status code: 503");
    assert_eq!(
        error_message(&WhoisError::Parse("expected value at line 1 column 1".to_string())),
        "JSON parse failed: expected value at line 1 column 1"
    );
}

#[test]
fn decimal_rendering_is_exact() {
    assert_eq!(u16_decimal(0), "0");
    assert_eq!(u16_decimal(7), "7");
    assert_eq!(u16_decimal(10), "10");
    assert_eq!(u16_decimal(404), "404");
    assert_eq!(u16_decimal(65535), "65535");
}

#[test]
fn resolver_holds_the_configured_provider() {
    let resolver = Resolver::new(Provider::QueryGet);
    let r = resolver.request_for("example.com");
    assert_eq!(r.method, HttpMethod::Get);
    assert_eq!(r.url, "https://api.uutool.cn/whois/api_whois_info?domainName=example.com");

    let v = resolver.complete(ok_event(200, "{\"ok\":true}")).unwrap();
    assert_eq!(v.get("ok").unwrap(), &serde_json::Value::Bool(true));
}

#[test]
fn many_independent_lookups_see_their_own_response() {
    // Each lookup is a function of its own event alone: fifty lookups, each
    // with a distinct payload, each receives exactly its own.
    for i in 0..50u16 {
        let body = format!("{{\"n\":{}}}", i);
        let v = resolve(ok_event(200, &body)).unwrap();
        assert_eq!(v.get("n").unwrap(), &serde_json::Value::from(i));
    }
}
