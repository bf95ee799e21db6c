use color_palette::request::{Effect, Signal};
use color_palette::rest::RestService;
use color_palette::service::Service;
use color_palette::status::{is_success, reply_of};
use color_palette::url::host_starts_with;

fn service_at(url: &str) -> Service {
    let mut s = Service::new();
    s.set_url(url, None);
    s
}

#[test]
fn is_success_is_exactly_2xx() {
    assert!(!is_success(0));
    assert!(!is_success(199));
    assert!(is_success(200));
    assert!(is_success(204));
    assert!(is_success(299));
    assert!(!is_success(300));
    assert!(!is_success(404));
    assert!(!is_success(-200));
}

#[test]
fn reply_of_transport_error_is_empty_and_zero() {
    let (body, status) = reply_of(None);
    assert_eq!(body, "");
    assert_eq!(status, 0);
    assert!(!is_success(status));
}

#[test]
fn reply_of_response_keeps_status_and_body() {
    assert_eq!(reply_of(Some((201, Some("made".to_string())))), ("made".to_string(), 201));
    assert_eq!(reply_of(Some((500, None))), (String::new(), 500));
}

#[test]
fn host_prefix_after_scheme() {
    assert!(host_starts_with("https://reqres.in/api", "reqres"));
    assert!(host_starts_with("http://reqres.in", "reqres"));
    assert!(!host_starts_with("https://api.reqres.in", "reqres"));
    assert!(!host_starts_with("https://example.com/reqres", "reqres"));
}

#[test]
fn host_prefix_without_scheme_or_with_port() {
    assert!(host_starts_with("reqres.in/api", "reqres"));
    assert!(host_starts_with("http://reqres:8080/x", "reqres"));
    assert!(!host_starts_with("http://req:8080/reqres", "reqres"));
    assert!(host_starts_with("http://localhost:8080", "localhost"));
    assert!(!host_starts_with("http://localhost:8080", "localhost:"));
}

#[test]
fn host_prefix_skips_userinfo() {
    assert!(!host_starts_with("https://reqres@example.com/api", "reqres"));
    assert!(host_starts_with("https://user:pw@reqres.in/api", "reqres"));
    assert!(host_starts_with("https://a@b@reqres.in:443", "reqres"));
    assert!(!host_starts_with("reqres@example.com", "reqres"));
    // an `@` after the first `/` belongs to the path, not to the userinfo
    assert!(host_starts_with("https://reqres.in/users/a@b", "reqres"));
    assert!(host_starts_with("https://user@reqres.in/a@b", "reqres"));
}

#[test]
fn api_key_not_given_for_reqres_userinfo() {
    let mut s = Service::new();
    s.set_url("https://reqres@example.com/api", None);
    assert_eq!(s.api_key, None);
}

#[test]
fn host_prefix_at_in_query_or_fragment_is_not_userinfo() {
    assert!(host_starts_with("https://reqres.in?x=a@b", "reqres"));
    assert!(host_starts_with("https://reqres.in#a@b", "reqres"));
    assert!(host_starts_with("reqres.in?mail=a@b.c", "reqres"));
    assert!(host_starts_with("https://u@reqres.in?x=a@b", "reqres"));
    assert!(!host_starts_with("https://reqres@example.com?x=a@b", "reqres"));
    let mut s = Service::new();
    s.set_url("https://reqres.in?x=a@b", None);
    assert_eq!(s.api_key.as_deref(), Some("reqres-free-v1"));
}

#[test]
fn host_prefix_bare_name_and_with_scheme_agree() {
    for (h, p) in [("reqres.in", "reqres"), ("example.com", "reqres"), ("re", "reqres"), ("localhost", "")] {
        let expected = h.starts_with(p);
        assert_eq!(host_starts_with(h, p), expected);
        assert_eq!(host_starts_with(&format!("http://{h}"), p), expected);
        assert_eq!(host_starts_with(&format!("https://{h}:443/any/path"), p), expected);
    }
}

#[test]
fn host_prefix_edge_cases() {
    assert!(host_starts_with("", ""));
    assert!(!host_starts_with("", "r"));
    assert!(host_starts_with("anything", ""));
    // the host is the text between the first two scheme separators
    assert!(!host_starts_with("a://b://reqres", "reqres"));
    assert!(host_starts_with("a://reqres://b", "reqres"));
    assert!(host_starts_with("https://reqres", "reqres"));
    assert!(!host_starts_with("https://reqre", "reqres"));
}

#[test]
fn new_service_is_empty() {
    let s = Service::new();
    assert_eq!(s.base_url, "");
    assert_eq!(s.api_key, None);
    assert_eq!(s.token, None);
    assert!(s.common_headers().is_empty());
}

#[test]
fn set_url_derives_api_key() {
    let mut s = Service::new();
    s.set_url("https://reqres.in/api", None);
    assert_eq!(s.base_url, "https://reqres.in/api");
    assert_eq!(s.api_key.as_deref(), Some("reqres-free-v1"));
    s.set_url("https://reqres.in/api", Some("personal".to_string()));
    assert_eq!(s.api_key.as_deref(), Some("personal"));
    s.set_url("http://127.0.0.1:8080", Some("personal".to_string()));
    assert_eq!(s.api_key, None);
}

#[test]
fn set_url_keeps_token() {
    let mut s = Service::new();
    s.set_token(Some("t1".to_string()));
    s.set_url("http://localhost", None);
    assert_eq!(s.token.as_deref(), Some("t1"));
}

#[test]
fn url_for_joins_with_one_slash() {
    let s = service_at("https://reqres.in/api");
    assert_eq!(s.url_for("users"), "https://reqres.in/api/users");
    assert_eq!(s.url_for("/users"), "https://reqres.in/api/users");
    assert_eq!(s.url_for("//users/"), "https://reqres.in/api/users/");
    let t = service_at("https://reqres.in/api//");
    assert_eq!(t.url_for("users"), "https://reqres.in/api/users");
    assert_eq!(t.url_for(""), "https://reqres.in/api/");
    let e = Service::new();
    assert_eq!(e.url_for("users"), "/users");
    assert_eq!(e.url_for("/"), "/");
}

#[test]
fn url_for_keeps_non_ascii() {
    let s = service_at("http://höst/ä/");
    assert_eq!(s.url_for("/ü"), "http://höst/ä/ü");
}

#[test]
fn common_headers_order() {
    let mut s = service_at("https://reqres.in");
    assert_eq!(
        s.common_headers(),
        vec![("x-api-key".to_string(), "reqres-free-v1".to_string())]
    );
    s.set_token(Some("tok".to_string()));
    assert_eq!(
        s.common_headers(),
        vec![
            ("x-api-key".to_string(), "reqres-free-v1".to_string()),
            ("token".to_string(), "tok".to_string()),
        ]
    );
    s.set_url("http://localhost", None);
    assert_eq!(s.common_headers(), vec![("token".to_string(), "tok".to_string())]);
    s.set_token(None);
    assert!(s.common_headers().is_empty());
}

#[test]
fn rest_service_set_url_announces_changes_only() {
    let mut s = Service::new();
    let effects = RestService::set_url(&mut s, "https://reqres.in/api".to_string(), None);
    assert_eq!(effects.len(), 1);
    assert!(matches!(effects[0], Effect::Emit(Signal::UrlChanged)));
    assert_eq!(RestService::get_url(&s), "https://reqres.in/api");
    assert_eq!(s.api_key.as_deref(), Some("reqres-free-v1"));
    let again = RestService::set_url(&mut s, "https://reqres.in/api".to_string(), Some("other".to_string()));
    assert!(again.is_empty());
    assert_eq!(s.api_key.as_deref(), Some("reqres-free-v1"));
    assert!(RestService::ssl_supported());
}

#[test]
fn apply_effect_sets_token() {
    let mut s = service_at("http://localhost");
    s.apply_effect(&Effect::Emit(Signal::UserChanged));
    assert_eq!(s.token, None);
    s.apply_effect(&Effect::SetToken(Some("abc".to_string())));
    assert_eq!(s.token.as_deref(), Some("abc"));
    s.apply_effect(&Effect::SetToken(None));
    assert_eq!(s.token, None);
}
