use go_true::{is_valid_header_name, is_valid_header_value, json_object, json_opt_bool, json_string, Api, EmailOrPhone, Method};

#[test]
fn list_users_without_query() {
    let api = Api::new("http://h".to_string());
    let req = api.list_users(None);
    assert_eq!(req.method, Method::Get);
    assert_eq!(req.url, "http://h/admin/users");
    assert!(req.body.is_none());
}

#[test]
fn list_users_with_query() {
    let api = Api::new("http://h".to_string());
    let req = api.list_users(Some("?page=2".to_string()));
    assert_eq!(req.url, "http://h/admin/users?page=2");
}

#[test]
fn admin_user_requests() {
    let api = Api::new("http://h".to_string());
    let get = api.get_user_by_id("42");
    assert_eq!((get.method, get.url.as_str()), (Method::Get, "http://h/admin/users/42"));
    let create = api.create_user(r#"{"email":"c@example.com"}"#.to_string());
    assert_eq!((create.method, create.url.as_str()), (Method::Post, "http://h/admin/users"));
    assert_eq!(create.body.as_deref(), Some(r#"{"email":"c@example.com"}"#));
    let update = api.update_user_by_id("42", r#"{"email":"d@example.com"}"#.to_string());
    assert_eq!((update.method, update.url.as_str()), (Method::Put, "http://h/admin/users/42"));
    let delete = api.delete_user("42");
    assert_eq!((delete.method, delete.url.as_str()), (Method::Delete, "http://h/admin/users/42"));
    assert!(delete.body.is_none());
    let invite = api.invite_user_by_email("e@example.com");
    assert_eq!(invite.url, "http://h/invite");
    assert_eq!(invite.body.as_deref(), Some(r#"{"email":"e@example.com"}"#));
}

#[test]
fn get_user_sends_bearer() {
    let api = Api::new("http://h".to_string());
    let req = api.get_user("jwt1").unwrap();
    assert_eq!((req.method, req.url.as_str()), (Method::Get, "http://h/user"));
    assert_eq!(
        req.headers,
        vec![("Authorization".to_string(), "Bearer jwt1".to_string())]
    );
}

#[test]
fn static_headers_go_with_every_request() {
    let api = Api::new("http://h".to_string()).insert_header("apikey", "super.secret.key");
    let plain = api.reset_password_for_email("a@example.com");
    assert_eq!(
        plain.headers,
        vec![("apikey".to_string(), "super.secret.key".to_string())]
    );
    let authed = api.sign_out(&"tok".to_string()).unwrap();
    assert_eq!(
        authed.headers,
        vec![
            ("apikey".to_string(), "super.secret.key".to_string()),
            ("Authorization".to_string(), "Bearer tok".to_string()),
        ]
    );
}

#[test]
fn provider_url() {
    let api = Api::new("http://h".to_string());
    assert_eq!(api.get_url_for_provider("github"), "http://h/authorize?provider=github");
}

#[test]
fn refresh_request_body() {
    let api = Api::new("http://h".to_string());
    let req = api.refresh_access_token("r1");
    assert_eq!(req.method, Method::Post);
    assert_eq!(req.body.as_deref(), Some(r#"{"refresh_token":"r1"}"#));
}

#[test]
fn otp_flag_is_sent() {
    let api = Api::new("http://h".to_string());
    let yes = api.send_otp(EmailOrPhone::Phone("+1".to_string()), Some(true));
    assert_eq!(yes.body.as_deref(), Some(r#"{"phone":"+1","should_create_user":true}"#));
    let no = api.send_otp(EmailOrPhone::Email("a@b.c".to_string()), Some(false));
    assert_eq!(no.body.as_deref(), Some(r#"{"email":"a@b.c","should_create_user":false}"#));
}

#[test]
fn json_string_escapes() {
    assert_eq!(json_string("plain"), "\"plain\"");
    assert_eq!(json_string("a\"b\\c\n"), "\"a\\\"b\\\\c\\n\"");
    assert_eq!(json_string(""), "\"\"");
}

#[test]
fn credentials_are_escaped_in_body() {
    let api = Api::new("http://h".to_string());
    let req = api.sign_up(EmailOrPhone::Email("a@example.com".to_string()), &"p\"w".to_string());
    assert_eq!(
        req.body.as_deref(),
        Some(r#"{"email":"a@example.com","password":"p\"w"}"#)
    );
}

#[test]
fn json_object_frames_members() {
    assert_eq!(json_object(&vec![]), "{}");
    let members = vec![
        ("a".to_string(), "1".to_string()),
        ("b".to_string(), "\"x\"".to_string()),
    ];
    assert_eq!(json_object(&members), r#"{"a":1,"b":"x"}"#);
    assert_eq!(json_opt_bool(None), "null");
}

#[test]
fn header_values() {
    assert!(is_valid_header_value("Bearer abc.def"));
    assert!(is_valid_header_value("tab\there"));
    assert!(is_valid_header_value("caf\u{e9}"));
    assert!(!is_valid_header_value("line\nbreak"));
    assert!(!is_valid_header_value("del\u{7f}"));
    assert!(is_valid_header_value(""));
}

#[test]
fn bearer_requests_refuse_unsendable_tokens() {
    let api = Api::new("http://h".to_string());
    assert!(api.sign_out(&"a\nb".to_string()).is_none());
    assert!(api.get_user("a\rb").is_none());
}

#[test]
fn header_names() {
    assert!(is_valid_header_name("apikey"));
    assert!(is_valid_header_name("X-Api-Key"));
    assert!(!is_valid_header_name(""));
    assert!(!is_valid_header_name("bad name"));
    assert!(!is_valid_header_name("colon:"));
}

#[test]
fn json_string_escapes_controls() {
    assert_eq!(json_string("\u{1}\t\u{8}\u{c}\r"), "\"\\u0001\\t\\b\\f\\r\"");
    assert_eq!(json_string("\u{1f}\u{7f}/"), "\"\\u001f\u{7f}/\"");
}
