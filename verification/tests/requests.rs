use go_true::{Client, EmailOrPhone, Error, Method, Request, UserAttributes};
use serde_json::Value;

const BASE: &str = "http://localhost:9998";

fn json(text: &str) -> Value {
    serde_json::from_str(text).unwrap()
}

fn header(request: &Request, name: &str) -> Option<String> {
    request.headers.get(name).map(|value| String::from_utf8(value.as_bytes().to_vec()).unwrap())
}

fn gateway_client() -> Client {
    Client::new(BASE).with_header("apikey", "super.secret.key")
}

#[test]
fn new_client_sends_no_header() {
    let request = Client::new(BASE).get_settings();
    assert!(request.headers.is_empty());
}

#[test]
fn sign_up_with_email() {
    let request = gateway_client().sign_up(EmailOrPhone::Email("email@example.com".to_string()), "Abcd1234!");
    assert_eq!(request.method, Method::Post);
    assert_eq!(request.url, "http://localhost:9998/signup");
    assert_eq!(request.headers.len(), 1);
    assert_eq!(header(&request, "apikey"), Some("super.secret.key".to_string()));
    assert_eq!(request.body, Some(json(r#"{"email":"email@example.com","password":"Abcd1234!"}"#)));
}

#[test]
fn sign_up_with_phone() {
    let request = Client::new(BASE).sign_up(EmailOrPhone::Phone("+4915112345678".to_string()), "Abcd1234!");
    assert_eq!(request.method, Method::Post);
    assert_eq!(request.url, "http://localhost:9998/signup");
    assert!(request.headers.is_empty());
    assert_eq!(request.body, Some(json(r#"{"phone":"+4915112345678","password":"Abcd1234!"}"#)));
}

#[test]
fn sign_up_body_escapes_nothing_away() {
    let request = Client::new(BASE).sign_up(EmailOrPhone::Email("a\"b\\c@example.com".to_string()), "p\u{e4}ss\nword");
    let body = request.body.unwrap();
    assert_eq!(body.get("email").and_then(Value::as_str), Some("a\"b\\c@example.com"));
    assert_eq!(body.get("password").and_then(Value::as_str), Some("p\u{e4}ss\nword"));
    assert_eq!(body.as_object().unwrap().len(), 2);
}

#[test]
fn sign_in_with_email() {
    let request = gateway_client().sign_in(EmailOrPhone::Email("email@example.com".to_string()), "Abcd1234!");
    assert_eq!(request.method, Method::Post);
    assert_eq!(request.url, "http://localhost:9998/token?grant_type=password");
    assert_eq!(header(&request, "apikey"), Some("super.secret.key".to_string()));
    assert_eq!(request.body, Some(json(r#"{"email":"email@example.com","password":"Abcd1234!"}"#)));
}

#[test]
fn sign_in_with_phone() {
    let request = Client::new(BASE).sign_in(EmailOrPhone::Phone("+4915112345678".to_string()), "pw");
    assert_eq!(request.url, "http://localhost:9998/token?grant_type=password");
    assert_eq!(request.body, Some(json(r#"{"phone":"+4915112345678","password":"pw"}"#)));
}

#[test]
fn sign_in_sends_what_sign_up_sent() {
    let client = gateway_client();
    let up = client.sign_up(EmailOrPhone::Email("email@example.com".to_string()), "Abcd1234!");
    let into = client.sign_in(EmailOrPhone::Email("email@example.com".to_string()), "Abcd1234!");
    assert_eq!(up.body, into.body);
    assert_eq!(up.headers, into.headers);
    assert_ne!(up.url, into.url);
}

#[test]
fn send_otp_leaves_the_choice_open() {
    let request = gateway_client().send_otp(EmailOrPhone::Email("email@example.com".to_string()), None);
    assert_eq!(request.method, Method::Post);
    assert_eq!(request.url, "http://localhost:9998/otp");
    assert_eq!(header(&request, "apikey"), Some("super.secret.key".to_string()));
    assert_eq!(request.body, Some(json(r#"{"email":"email@example.com","should_create_user":null}"#)));
}

#[test]
fn send_otp_may_create_the_user() {
    let request = Client::new(BASE).send_otp(EmailOrPhone::Phone("+49151".to_string()), Some(true));
    assert_eq!(request.body, Some(json(r#"{"phone":"+49151","should_create_user":true}"#)));
}

#[test]
fn send_otp_may_refuse_to_create_the_user() {
    let request = Client::new(BASE).send_otp(EmailOrPhone::Email("e@x.org".to_string()), Some(false));
    assert_eq!(request.body, Some(json(r#"{"email":"e@x.org","should_create_user":false}"#)));
}

#[test]
fn verify_otp_sends_the_callers_document() {
    let params = json(r#"{"type":"sms","phone":"+49151","token":"123456","tries":[1,2.5]}"#);
    let request = gateway_client().verify_otp(Some(params.clone())).unwrap();
    assert_eq!(request.method, Method::Post);
    assert_eq!(request.url, "http://localhost:9998/verify");
    assert_eq!(header(&request, "apikey"), Some("super.secret.key".to_string()));
    assert_eq!(request.body, Some(params));
}

#[test]
fn sign_out_carries_the_bearer_token() {
    let request = gateway_client().sign_out("abc.def.ghi").unwrap();
    assert_eq!(request.method, Method::Post);
    assert_eq!(request.url, "http://localhost:9998/logout");
    assert_eq!(request.headers.len(), 2);
    assert_eq!(header(&request, "apikey"), Some("super.secret.key".to_string()));
    assert_eq!(header(&request, "authorization"), Some("Bearer abc.def.ghi".to_string()));
    assert_eq!(request.body, None);
}

#[test]
fn bearer_token_replaces_a_default_authorization() {
    let client = Client::new(BASE).with_header("Authorization", "Bearer service");
    let request = client.sign_out("user").unwrap();
    assert_eq!(request.headers.len(), 1);
    assert_eq!(request.headers.get_all("authorization").iter().count(), 1);
    assert_eq!(header(&request, "authorization"), Some("Bearer user".to_string()));
    let other = client.get_settings();
    assert_eq!(header(&other, "authorization"), Some("Bearer service".to_string()));
}

#[test]
fn bearer_token_with_an_empty_token() {
    let request = Client::new(BASE).get_user("").unwrap();
    assert_eq!(header(&request, "authorization"), Some("Bearer ".to_string()));
}

#[test]
fn bearer_token_keeps_bytes_beyond_ascii() {
    let request = Client::new(BASE).get_user("t\u{f6}ken\t!").unwrap();
    assert_eq!(
        request.headers.get("authorization").unwrap().as_bytes(),
        "Bearer t\u{f6}ken\t!".as_bytes()
    );
}

#[test]
fn reset_password_sends_the_email() {
    let request = gateway_client().reset_password_for_email("random@mail.com");
    assert_eq!(request.method, Method::Post);
    assert_eq!(request.url, "http://localhost:9998/recover");
    assert_eq!(header(&request, "apikey"), Some("super.secret.key".to_string()));
    assert_eq!(request.body, Some(json(r#"{"email":"random@mail.com"}"#)));
}

#[test]
fn url_for_provider() {
    let client = gateway_client();
    assert_eq!(client.get_url_for_provider("github"), "http://localhost:9998/authorize?provider=github");
    assert_eq!(client.get_url_for_provider(""), "http://localhost:9998/authorize?provider=");
    assert_eq!(Client::new("").get_url_for_provider("a b"), "/authorize?provider=a b");
}

#[test]
fn refresh_access_token_sends_the_token() {
    let request = gateway_client().refresh_access_token("r3fr3sh");
    assert_eq!(request.method, Method::Post);
    assert_eq!(request.url, "http://localhost:9998/token?grant_type=refresh_token");
    assert_eq!(header(&request, "apikey"), Some("super.secret.key".to_string()));
    assert_eq!(request.body, Some(json(r#"{"refresh_token":"r3fr3sh"}"#)));
}

#[test]
fn refresh_session_without_a_token_sends_nothing() {
    let outcome = gateway_client().refresh_session("");
    assert!(matches!(outcome, Err(Error::NotAuthenticated)));
}

#[test]
fn refresh_session_with_a_token() {
    let request = gateway_client().refresh_session("r3fr3sh").unwrap();
    assert_eq!(request.method, Method::Post);
    assert_eq!(request.url, "http://localhost:9998/token?grant_type=refresh_token");
    assert_eq!(header(&request, "apikey"), Some("super.secret.key".to_string()));
    assert_eq!(request.body, Some(json(r#"{"refresh_token":"r3fr3sh"}"#)));
}

#[test]
fn refresh_session_with_a_blank_is_no_empty_token() {
    let request = Client::new(BASE).refresh_session(" ").unwrap();
    assert_eq!(request.body, Some(json(r#"{"refresh_token":" "}"#)));
}

#[test]
fn get_user_carries_the_bearer_token() {
    let request = gateway_client().get_user("abc.def.ghi").unwrap();
    assert_eq!(request.method, Method::Get);
    assert_eq!(request.url, "http://localhost:9998/user");
    assert_eq!(request.headers.len(), 2);
    assert_eq!(header(&request, "authorization"), Some("Bearer abc.def.ghi".to_string()));
    assert_eq!(request.body, None);
}

#[test]
fn update_user_sends_the_three_attributes() {
    let attributes = UserAttributes {
        email: "otheremail@example.com".to_string(),
        password: "Abcd12345!".to_string(),
        data: json(r#"{"test":"test","n":[1,null]}"#),
    };
    let request = gateway_client().update_user(attributes, "abc.def.ghi").unwrap();
    assert_eq!(request.method, Method::Put);
    assert_eq!(request.url, "http://localhost:9998/user");
    assert_eq!(header(&request, "apikey"), Some("super.secret.key".to_string()));
    assert_eq!(header(&request, "authorization"), Some("Bearer abc.def.ghi".to_string()));
    assert_eq!(
        request.body,
        Some(json(
            r#"{"email":"otheremail@example.com","password":"Abcd12345!","data":{"test":"test","n":[1,null]}}"#
        ))
    );
}

#[test]
fn get_settings_request() {
    let request = gateway_client().get_settings();
    assert_eq!(request.method, Method::Get);
    assert_eq!(request.url, "http://localhost:9998/settings");
    assert_eq!(request.headers.len(), 1);
    assert_eq!(header(&request, "apikey"), Some("super.secret.key".to_string()));
    assert_eq!(request.body, None);
}

#[test]
fn create_user_sends_the_record() {
    let record = json(r#"{"email":"createemail@example.com","password":"Abcd1234!","data":null}"#);
    let request = gateway_client().create_user(Some(record.clone())).unwrap();
    assert_eq!(request.method, Method::Post);
    assert_eq!(request.url, "http://localhost:9998/admin/users");
    assert_eq!(header(&request, "apikey"), Some("super.secret.key".to_string()));
    assert_eq!(request.body, Some(record));
}

#[test]
fn create_user_without_a_record_sends_nothing() {
    let outcome = gateway_client().create_user(None);
    assert!(matches!(outcome, Err(Error::InternalError)));
}

#[test]
fn invite_user_sends_the_email() {
    let request = gateway_client().invite_user_by_email("email@example.com");
    assert_eq!(request.method, Method::Post);
    assert_eq!(request.url, "http://localhost:9998/invite");
    assert_eq!(header(&request, "apikey"), Some("super.secret.key".to_string()));
    assert_eq!(request.body, Some(json(r#"{"email":"email@example.com"}"#)));
}

#[test]
fn list_users_without_a_query() {
    let request = gateway_client().list_users(None);
    assert_eq!(request.method, Method::Get);
    assert_eq!(request.url, "http://localhost:9998/admin/users");
    assert_eq!(header(&request, "apikey"), Some("super.secret.key".to_string()));
    assert_eq!(request.body, None);
}

#[test]
fn list_users_with_a_query() {
    let request = Client::new(BASE).list_users(Some("?page=2&per_page=10".to_string()));
    assert_eq!(request.method, Method::Get);
    assert_eq!(request.url, "http://localhost:9998/admin/users?page=2&per_page=10");
    assert_eq!(request.body, None);
}

#[test]
fn list_users_with_an_empty_query() {
    let request = Client::new(BASE).list_users(Some(String::new()));
    assert_eq!(request.url, "http://localhost:9998/admin/users");
}

#[test]
fn get_user_by_id_request() {
    let request = gateway_client().get_user_by_id("7f3c");
    assert_eq!(request.method, Method::Get);
    assert_eq!(request.url, "http://localhost:9998/admin/users/7f3c");
    assert_eq!(header(&request, "apikey"), Some("super.secret.key".to_string()));
    assert_eq!(request.body, None);
}

#[test]
fn update_user_by_id_request() {
    let fields = json(r#"{"email":"newemail@example.com","password":null}"#);
    let request = gateway_client().update_user_by_id("7f3c", Some(fields.clone())).unwrap();
    assert_eq!(request.method, Method::Put);
    assert_eq!(request.url, "http://localhost:9998/admin/users/7f3c");
    assert_eq!(header(&request, "apikey"), Some("super.secret.key".to_string()));
    assert_eq!(request.body, Some(fields));
}

#[test]
fn delete_user_request() {
    let request = gateway_client().delete_user("7f3c");
    assert_eq!(request.method, Method::Delete);
    assert_eq!(request.url, "http://localhost:9998/admin/users/7f3c");
    assert_eq!(header(&request, "apikey"), Some("super.secret.key".to_string()));
    assert_eq!(request.body, None);
}

#[test]
fn an_empty_id_leaves_the_slash() {
    let request = Client::new(BASE).delete_user("");
    assert_eq!(request.url, "http://localhost:9998/admin/users/");
}

fn attributes() -> UserAttributes {
    UserAttributes {
        email: "otheremail@example.com".to_string(),
        password: "Abcd12345!".to_string(),
        data: json(r#"{"test":"test"}"#),
    }
}

#[test]
fn sign_out_with_a_line_break_in_the_token_sends_nothing() {
    let outcome = Client::new(BASE).sign_out("a\nb");
    assert!(matches!(outcome, Err(Error::InternalError)));
}

#[test]
fn sign_out_refuses_every_token_that_is_no_header_value() {
    let client = gateway_client();
    for token in ["\r", "a\u{0}", "\u{7f}", "tok\u{1f}en", "\n"] {
        assert!(matches!(client.sign_out(token), Err(Error::InternalError)), "token {token:?}");
    }
    for token in ["", " ", "\t", "a b", "\u{80}", "\u{20ac}"] {
        assert!(client.sign_out(token).is_ok(), "token {token:?}");
    }
}

#[test]
fn get_user_with_a_line_break_in_the_token_sends_nothing() {
    let outcome = gateway_client().get_user("abc\r\nx-injected: 1");
    assert!(matches!(outcome, Err(Error::InternalError)));
}

#[test]
fn update_user_with_a_line_break_in_the_token_sends_nothing() {
    let outcome = gateway_client().update_user(attributes(), "a\nb");
    assert!(matches!(outcome, Err(Error::InternalError)));
}

#[test]
fn verify_otp_without_a_document_sends_nothing() {
    let outcome = gateway_client().verify_otp(None);
    assert!(matches!(outcome, Err(Error::InternalError)));
}

#[test]
fn verify_otp_sends_a_document_that_is_no_object() {
    let request = Client::new(BASE).verify_otp(Some(Value::Null)).unwrap();
    assert_eq!(request.url, "http://localhost:9998/verify");
    assert_eq!(request.body, Some(Value::Null));
}

#[test]
fn update_user_by_id_without_a_document_sends_nothing() {
    let outcome = gateway_client().update_user_by_id("7f3c", None);
    assert!(matches!(outcome, Err(Error::InternalError)));
}
