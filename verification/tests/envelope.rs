use serde_json::Value;
use simply_plural::error::SPError;
use simply_plural::models::user::{Field, GetUserResponse, User};
use simply_plural::request::Body;
use simply_plural::{SPApi, SPEndpoint};

fn text(value: &Value, name: &str) -> String {
    value.get(name).and_then(Value::as_str).unwrap_or_default().to_string()
}

fn number(value: &Value, name: &str) -> i64 {
    value.get(name).and_then(Value::as_i64).unwrap_or_default()
}

fn flag(value: &Value, name: &str) -> bool {
    value.get(name).and_then(Value::as_bool).unwrap_or_default()
}

fn read_field(value: &Value) -> Field {
    Field {
        name: text(value, "name"),
        order: number(value, "order"),
        private: flag(value, "private"),
        prevent_trusted: flag(value, "preventTrusted"),
        field_type: number(value, "type"),
    }
}

fn read_user(value: &Value) -> User {
    let mut user = User::default();
    user.uid = text(value, "uid");
    user.username = text(value, "username");
    user.is_a_system = flag(value, "isAsystem");
    user.last_operation_time = number(value, "lastOperationTime");
    if let Some(fields) = value.get("fields").and_then(Value::as_object) {
        for (key, field) in fields {
            user.insert_field(key.clone(), read_field(field));
        }
    }
    user
}

fn read_envelope(document: &str) -> GetUserResponse<User> {
    let value: Value = serde_json::from_str(document).unwrap();
    GetUserResponse {
        exists: value.get("exists").and_then(Value::as_bool),
        id: value.get("id").and_then(Value::as_str).map(str::to_string),
        content: value.get("content").map(read_user),
    }
}

fn api() -> SPApi {
    SPApi::new("secret", SPEndpoint::Production).unwrap()
}

#[test]
fn response_with_content_yields_the_user() {
    let document = r#"{"content":{"uid":"u1","fields":{},"username":"alice","isAsystem":false,"lastOperationTime":0}}"#;
    let api = api();
    for user_id in [None, Some("u1".to_string())] {
        let request = api.get_user_request(&user_id);
        assert!(request.body.is_none());
        let user = api.get_user(Ok(read_envelope(document))).unwrap();
        assert_eq!(user.uid, "u1");
        assert!(user.get_fields().is_empty());
        assert_eq!(user.username, "alice");
        assert!(!user.is_a_system);
        assert_eq!(user.last_operation_time, 0);
        assert!(user.is_bound());
    }
}

#[test]
fn response_without_content_is_content_missing() {
    let envelope = read_envelope(r#"{"exists":true,"id":"u1"}"#);
    assert_eq!(envelope.exists, Some(true));
    assert_eq!(envelope.id, Some("u1".to_string()));
    let result = api().get_user(Ok(envelope));
    match result {
        Err(e) => {
            assert!(matches!(e, SPError::ContentMissingError));
            assert!(!e.is_decode());
            assert_eq!(e.message(), "response is missing content");
        }
        Ok(user) => panic!("unexpected user: {:?}", user),
    }
}

#[test]
fn response_with_fields_keeps_each_under_its_key() {
    let document = r#"{"exists":true,"id":"u2","content":{"uid":"u2","fields":{
        "f1":{"name":"Age","order":0,"private":false,"preventTrusted":false,"type":1},
        "f2":{"name":"City","order":1,"private":true,"preventTrusted":true,"type":0}},
        "username":"bob","isAsystem":true,"lastOperationTime":1700000000000}}"#;
    let mut user = api().get_user(Ok(read_envelope(document))).unwrap();
    assert_eq!(user.last_operation_time, 1700000000000);
    let mut fields = user.get_fields();
    fields.sort_by(|a, b| a.0.cmp(&b.0));
    assert_eq!(fields.len(), 2);
    assert_eq!(fields[0].0, "f1");
    assert_eq!(fields[0].1.name, "Age");
    assert_eq!(fields[1].0, "f2");
    assert!(fields[1].1.private && fields[1].1.prevent_trusted);
    let renamed = Field { name: "Town".to_string(), ..fields[1].1.clone() };
    user.set_field("City".to_string(), renamed.clone());
    match user.update().body {
        Some(Body::Profile { mut fields, is_a_system }) => {
            fields.sort_by(|a, b| a.0.cmp(&b.0));
            assert!(is_a_system);
            assert_eq!(fields.len(), 2);
            assert_eq!(fields[1], ("f2".to_string(), renamed));
        }
        other => panic!("unexpected body: {:?}", other),
    }
}

#[test]
fn envelope_hands_out_its_content_or_says_that_it_has_none() {
    let full = GetUserResponse { exists: Some(false), id: None, content: Some(7) };
    assert!(matches!(full.into_content(), Ok(7)));
    let empty: GetUserResponse<i64> = GetUserResponse { exists: Some(true), id: None, content: None };
    assert!(matches!(empty.into_content(), Err(SPError::ContentMissingError)));
}
