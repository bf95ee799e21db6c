use color_palette::json::get_string_from_map;
use color_palette::login::BasicLogin;
use color_palette::request::{Body, Effect, Method, Signal};
use color_palette::service::Service;

fn service() -> Service {
    let mut s = Service::new();
    s.set_url("https://reqres.in/api/", None);
    s
}

fn login_element() -> BasicLogin {
    let mut l = BasicLogin::default();
    l.login_path = "/login".to_string();
    l.logout_path = "logout".to_string();
    l
}

#[test]
fn default_login_is_logged_out() {
    let l = BasicLogin::default();
    assert_eq!(l.user, "");
    assert!(!l.logged_in);
    assert_eq!(l.user_id, 0);
    assert_eq!(l.login_path, "");
    assert_eq!(l.logout_path, "");
}

#[test]
fn login_without_service_does_nothing() {
    let l = login_element();
    assert!(l.login(None, serde_json::Value::Null).is_none());
    assert!(l.logout(None).is_none());
}

#[test]
fn login_posts_payload_to_login_path() {
    let l = login_element();
    let s = service();
    let payload: serde_json::Value = serde_json::from_str(r#"{"email":"eve@example.com","password":"cityslicka"}"#).unwrap();
    let req = l.login(Some(&s), payload.clone()).unwrap();
    assert_eq!(req.method, Method::Post);
    assert_eq!(req.url, "https://reqres.in/api/login");
    assert_eq!(req.headers, vec![("x-api-key".to_string(), "reqres-free-v1".to_string())]);
    match &req.body {
        Body::Json(v) => assert_eq!(v, &payload),
        other => panic!("unexpected {:?}", other),
    }
}

#[test]
fn logout_posts_empty_body() {
    let l = login_element();
    let mut s = service();
    s.set_token(Some("tok".to_string()));
    let req = l.logout(Some(&s)).unwrap();
    assert_eq!(req.method, Method::Post);
    assert_eq!(req.url, "https://reqres.in/api/logout");
    assert_eq!(req.headers.len(), 2);
    assert!(matches!(req.body, Body::EmptyText));
}

#[test]
fn successful_login_records_user_and_token() {
    let mut l = login_element();
    let effects = l.on_login_finished("eve@example.com".to_string(), 4, r#"{"token":"QpwL5tke4Pnpja7X4"}"#, 200);
    assert!(l.logged_in);
    assert_eq!(l.user, "eve@example.com");
    assert_eq!(l.user_id, 4);
    assert_eq!(effects.len(), 2);
    match &effects[0] {
        Effect::SetToken(Some(t)) => assert_eq!(t, "QpwL5tke4Pnpja7X4"),
        other => panic!("unexpected {:?}", other),
    }
    assert!(matches!(effects[1], Effect::Emit(Signal::UserChanged)));
    let mut s = service();
    for e in &effects {
        s.apply_effect(e);
    }
    assert_eq!(s.common_headers().last().unwrap(), &("token".to_string(), "QpwL5tke4Pnpja7X4".to_string()));
}

#[test]
fn failed_login_status_logs_out() {
    let mut l = login_element();
    l.on_login_finished("a@b".to_string(), 1, r#"{"token":"x"}"#, 200);
    let effects = l.on_login_finished("c@d".to_string(), 2, r#"{"token":"y"}"#, 400);
    assert!(!l.logged_in);
    assert_eq!(l.user, "");
    assert_eq!(l.user_id, 0);
    assert_eq!(effects.len(), 1);
    assert!(matches!(effects[0], Effect::Emit(Signal::UserChanged)));
}

#[test]
fn login_reply_without_string_token_logs_out() {
    for body in ["not json", r#"{"error":"Missing password"}"#, r#"{"token":17}"#, r#"["token"]"#, ""] {
        let mut l = login_element();
        let effects = l.on_login_finished("e@f".to_string(), 3, body, 200);
        assert!(!l.logged_in, "body {body}");
        assert_eq!(l.user, "");
        assert_eq!(effects.len(), 1);
    }
}

#[test]
fn apply_login_reply_directly() {
    let mut l = login_element();
    let effects = l.apply_login_reply("x@y".to_string(), 9, Some("t".to_string()));
    assert!(l.logged_in);
    assert_eq!(l.user_id, 9);
    assert_eq!(effects.len(), 2);
    let effects = l.apply_login_reply("x@y".to_string(), 9, None);
    assert!(!l.logged_in);
    assert_eq!(effects.len(), 1);
}

#[test]
fn logout_success_clears_user_and_token() {
    let mut l = login_element();
    l.on_login_finished("a@b".to_string(), 1, r#"{"token":"x"}"#, 200);
    let effects = l.on_logout_finished(200);
    assert!(!l.logged_in);
    assert_eq!(l.user, "");
    assert_eq!(l.user_id, 0);
    assert_eq!(effects.len(), 2);
    assert!(matches!(effects[0], Effect::SetToken(None)));
    assert!(matches!(effects[1], Effect::Emit(Signal::UserChanged)));
}

#[test]
fn logout_failure_changes_nothing() {
    let mut l = login_element();
    l.on_login_finished("a@b".to_string(), 1, r#"{"token":"x"}"#, 200);
    let effects = l.on_logout_finished(0);
    assert!(l.logged_in);
    assert_eq!(l.user, "a@b");
    assert!(effects.is_empty());
}

#[test]
fn get_string_from_map_cases() {
    let v: serde_json::Value = serde_json::from_str(r#"{"email":"eve@example.com","id":4,"n":null}"#).unwrap();
    assert_eq!(get_string_from_map(&v, "email").as_deref(), Some("eve@example.com"));
    assert_eq!(get_string_from_map(&v, "id"), None);
    assert_eq!(get_string_from_map(&v, "n"), None);
    assert_eq!(get_string_from_map(&v, "missing"), None);
    let not_object: serde_json::Value = serde_json::from_str(r#"["email"]"#).unwrap();
    assert_eq!(get_string_from_map(&not_object, "email").as_deref(), Some(""));
    assert_eq!(get_string_from_map(&serde_json::Value::Null, "email").as_deref(), Some(""));
}
