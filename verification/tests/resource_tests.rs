use color_palette::monitor::{probe_outcome, Backend};
use color_palette::paginated::{PageReply, PaginatedResource};
use color_palette::request::{Body, Effect, Method, Signal};
use color_palette::service::Service;

fn service() -> Service {
    let mut s = Service::new();
    s.set_url("http://localhost:8080/api", None);
    s
}

fn colors() -> PaginatedResource {
    let mut r = PaginatedResource::default();
    r.path = "unknown".to_string();
    r
}

fn sent(e: &Effect) -> &color_palette::request::HttpRequest {
    match e {
        Effect::Send(r) => r,
        other => panic!("expected a request, got {:?}", other),
    }
}

#[test]
fn default_resource() {
    let r = PaginatedResource::default();
    assert_eq!(r.path, "");
    assert!(r.data.is_empty());
    assert_eq!(r.pages, 0);
    assert_eq!(r.current_page, 1);
    assert_eq!(r.page(), 1);
}

#[test]
fn refresh_gets_current_page() {
    let mut r = colors();
    r.current_page = 3;
    let s = service();
    let req = r.refresh_current_page(Some(&s)).unwrap();
    assert_eq!(req.method, Method::Get);
    assert_eq!(req.url, "http://localhost:8080/api/unknown?page=3");
    assert!(matches!(req.body, Body::NoBody));
    assert!(req.headers.is_empty());
    assert!(r.refresh_current_page(None).is_none());
}

#[test]
fn crud_requests() {
    let r = colors();
    let mut s = service();
    s.set_token(Some("tok".to_string()));
    let item: serde_json::Value = serde_json::from_str(r#"{"name":"cerulean","year":2000}"#).unwrap();
    let add = r.add(Some(&s), item.clone()).unwrap();
    assert_eq!(add.method, Method::Post);
    assert_eq!(add.url, "http://localhost:8080/api/unknown");
    assert!(matches!(&add.body, Body::Json(v) if v == &item));
    assert_eq!(add.headers, vec![("token".to_string(), "tok".to_string())]);
    let upd = r.update(Some(&s), item.clone(), 42).unwrap();
    assert_eq!(upd.method, Method::Put);
    assert_eq!(upd.url, "http://localhost:8080/api/unknown/42");
    assert!(matches!(&upd.body, Body::Json(v) if v["name"] == "cerulean"));
    let del = r.remove(Some(&s), -7).unwrap();
    assert_eq!(del.method, Method::Delete);
    assert_eq!(del.url, "http://localhost:8080/api/unknown/-7");
    assert!(matches!(del.body, Body::NoBody));
    let min = r.remove(Some(&s), i32::MIN).unwrap();
    assert_eq!(min.url, "http://localhost:8080/api/unknown/-2147483648");
    let zero = r.update(Some(&s), serde_json::Value::Null, 0).unwrap();
    assert_eq!(zero.url, "http://localhost:8080/api/unknown/0");
    assert!(r.add(None, item.clone()).is_none());
    assert!(r.update(None, item, 1).is_none());
    assert!(r.remove(None, 1).is_none());
}

#[test]
fn set_page_ignores_current_and_invalid_pages() {
    let mut r = colors();
    let s = service();
    assert!(r.set_page(1, Some(&s)).is_empty());
    assert!(r.set_page(0, Some(&s)).is_empty());
    assert!(r.set_page(-3, Some(&s)).is_empty());
    assert_eq!(r.current_page, 1);
}

#[test]
fn set_page_announces_and_fetches() {
    let mut r = colors();
    let s = service();
    let effects = r.set_page(2, Some(&s));
    assert_eq!(r.page(), 2);
    assert_eq!(effects.len(), 2);
    assert!(matches!(effects[0], Effect::Emit(Signal::PageUpdated)));
    assert_eq!(sent(&effects[1]).url, "http://localhost:8080/api/unknown?page=2");
    let effects = r.set_page(5, None);
    assert_eq!(r.page(), 5);
    assert_eq!(effects.len(), 1);
}

#[test]
fn refresh_reply_updates_page() {
    let mut r = colors();
    let s = service();
    let body = r#"{"page":2,"per_page":6,"total":12,"total_pages":2,"data":[{"id":7,"name":"sand dollar"},{"id":8,"name":"chili pepper"}]}"#;
    let effects = r.on_refresh_finished(body, 200, Some(&s));
    assert_eq!(r.current_page, 2);
    assert_eq!(r.pages, 2);
    assert_eq!(r.data.len(), 2);
    assert_eq!(r.data[0]["name"], "sand dollar");
    assert_eq!(r.data[1]["name"], "chili pepper");
    assert_eq!(r.data[0]["id"], 7);
    assert_eq!(effects.len(), 3);
    assert!(matches!(effects[0], Effect::Emit(Signal::PageUpdated)));
    assert!(matches!(effects[1], Effect::Emit(Signal::PagesUpdated)));
    assert!(matches!(effects[2], Effect::Emit(Signal::DataUpdated)));
}

#[test]
fn refresh_reply_with_missing_members() {
    let mut r = colors();
    r.current_page = 4;
    r.pages = 9;
    let effects = r.on_refresh_finished(r#"{"data":"none","page":2.5}"#, 200, None);
    assert_eq!(r.current_page, 4);
    assert_eq!(r.pages, 0);
    assert!(r.data.is_empty());
    assert_eq!(effects.len(), 3);
}

#[test]
fn refresh_reply_numbers_are_cut_to_i32() {
    let mut r = colors();
    let effects = r.on_refresh_finished(r#"{"total_pages":4294967298,"page":-1}"#, 200, None);
    assert_eq!(r.pages, 2);
    assert_eq!(r.current_page, -1);
    assert_eq!(effects.len(), 3);
}

#[test]
fn failed_refresh_away_from_first_page_goes_back() {
    let mut r = colors();
    let s = service();
    r.current_page = 3;
    r.pages = 3;
    let effects = r.on_refresh_finished("", 0, Some(&s));
    assert_eq!(r.current_page, 1);
    assert_eq!(r.pages, 3);
    assert_eq!(effects.len(), 2);
    assert!(matches!(effects[0], Effect::Emit(Signal::PageUpdated)));
    assert_eq!(sent(&effects[1]).url, "http://localhost:8080/api/unknown?page=1");
}

#[test]
fn failed_refresh_on_first_page_clears() {
    let mut r = colors();
    let s = service();
    r.on_refresh_finished(r#"{"total_pages":2,"data":[1,2,3]}"#, 200, Some(&s));
    assert_eq!(r.data.len(), 3);
    let effects = r.on_refresh_finished("not json", 200, Some(&s));
    assert_eq!(r.pages, 0);
    assert!(r.data.is_empty());
    assert_eq!(effects.len(), 2);
    assert!(matches!(effects[0], Effect::Emit(Signal::PagesUpdated)));
    assert!(matches!(effects[1], Effect::Emit(Signal::DataUpdated)));
    let effects = r.on_refresh_finished("{}", 500, Some(&s));
    assert_eq!(effects.len(), 1);
    assert!(matches!(effects[0], Effect::Emit(Signal::PagesUpdated)));
}

#[test]
fn apply_page_reply_directly() {
    let mut r = colors();
    let effects = r.apply_page_reply(PageReply { total_pages: Some(7), page: None, data: Some(vec![serde_json::Value::Null]) });
    assert_eq!(r.pages, 7);
    assert_eq!(r.current_page, 1);
    assert_eq!(r.data.len(), 1);
    assert_eq!(effects.len(), 3);
    r.apply_page_reply(PageReply { total_pages: None, page: Some(3), data: None });
    assert_eq!(r.pages, 0);
    assert_eq!(r.current_page, 3);
    assert!(r.data.is_empty());
}

#[test]
fn mutation_success_refreshes() {
    let mut r = colors();
    r.current_page = 2;
    let s = service();
    let effects = r.on_mutation_finished(201, Some(&s));
    assert_eq!(effects.len(), 1);
    assert_eq!(sent(&effects[0]).url, "http://localhost:8080/api/unknown?page=2");
    assert!(r.on_mutation_finished(201, None).is_empty());
    assert!(r.on_mutation_finished(409, Some(&s)).is_empty());
}

#[test]
fn refresh_request_failed_directly() {
    let mut r = colors();
    let effects = r.refresh_request_failed(None);
    assert_eq!(r.pages, 0);
    assert_eq!(effects.len(), 1);
}

#[test]
fn backend_defaults_and_updates() {
    let mut b = Backend::default();
    assert_eq!(b.hostname, "https://www.qt.io");
    assert!(!b.status);
    assert_eq!(b.latency, 0);
    let effects = b.update_status(true, 120);
    assert!(b.status);
    assert_eq!(b.latency, 120);
    assert_eq!(effects.len(), 2);
    assert!(matches!(effects[0], Effect::Emit(Signal::StatusChanged)));
    assert!(matches!(effects[1], Effect::Emit(Signal::LatencyChanged)));
    let effects = b.set_hostname("https://example.org".to_string());
    assert_eq!(b.hostname, "https://example.org");
    assert!(matches!(effects[0], Effect::Emit(Signal::HostnameChanged)));
    let req = b.make_request();
    assert_eq!(req.method, Method::Get);
    assert_eq!(req.url, "https://example.org");
    assert!(req.headers.is_empty());
    assert!(matches!(b.set_status(false)[0], Effect::Emit(Signal::StatusChanged)));
    assert!(matches!(b.set_latency(3)[0], Effect::Emit(Signal::LatencyChanged)));
    assert_eq!(b.latency, 3);
}

#[test]
fn probe_outcome_cases() {
    assert_eq!(probe_outcome(Some(200), 35), (true, 35));
    assert_eq!(probe_outcome(Some(301), 35), (false, 0));
    assert_eq!(probe_outcome(None, 35), (false, 0));
    assert_eq!(probe_outcome(Some(299), (1u128 << 64) + 5), (true, 5));
}
