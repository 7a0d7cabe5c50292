use simply_plural::client::Client;
use simply_plural::error::SPError;
use simply_plural::models::fields::FieldMap;
use simply_plural::models::user::{Field, GetUserResponse, User};
use simply_plural::{SPApi, SPEndpoint};

fn named(name: &str) -> Field {
    Field { name: name.to_string(), order: 2, private: true, prevent_trusted: false, field_type: -1 }
}

#[test]
fn new_map_is_empty() {
    let map = FieldMap::new();
    assert_eq!(map.len(), 0);
    assert!(map.entries().is_empty());
    assert_eq!(map.find_key(&"k".to_string()), None);
    assert_eq!(map.find_name(&"n".to_string()), None);
}

#[test]
fn insert_appends_new_keys_in_order() {
    let mut map = FieldMap::new();
    map.insert("b".to_string(), named("x"));
    map.insert("a".to_string(), named("y"));
    map.insert("c".to_string(), named("z"));
    assert_eq!(map.len(), 3);
    let entries = map.entries();
    assert_eq!(entries[0], ("b".to_string(), named("x")));
    assert_eq!(entries[1], ("a".to_string(), named("y")));
    assert_eq!(entries[2], ("c".to_string(), named("z")));
    assert_eq!(map.find_key(&"a".to_string()), Some(1));
    assert_eq!(map.find_key(&"y".to_string()), None);
    assert_eq!(map.find_name(&"z".to_string()), Some(2));
    assert_eq!(map.find_name(&"c".to_string()), None);
}

#[test]
fn insert_under_a_known_key_replaces_in_place() {
    let mut map = FieldMap::new();
    map.insert("a".to_string(), named("x"));
    map.insert("b".to_string(), named("y"));
    map.insert("a".to_string(), named("z"));
    assert_eq!(map.len(), 2);
    assert_eq!(map.entries(), vec![("a".to_string(), named("z")), ("b".to_string(), named("y"))]);
}

#[test]
fn replace_keeps_the_key_and_the_others() {
    let mut map = FieldMap::new();
    map.insert("a".to_string(), named("x"));
    map.insert("b".to_string(), named("y"));
    assert!(map.replace(1, named("w")));
    assert_eq!(map.entries(), vec![("a".to_string(), named("x")), ("b".to_string(), named("w"))]);
    assert!(!map.replace(2, named("v")));
    assert_eq!(map.entries(), vec![("a".to_string(), named("x")), ("b".to_string(), named("w"))]);
    assert!(map.replace(0, named("w")));
    assert_eq!(map.find_name(&"w".to_string()), Some(0));
    assert_eq!(map.len(), 2);
}

#[test]
fn map_clone_is_independent() {
    let mut map = FieldMap::new();
    map.insert("a".to_string(), named("x"));
    let copy = map.clone();
    map.insert("b".to_string(), named("y"));
    assert_eq!(copy.entries(), vec![("a".to_string(), named("x"))]);
    assert_eq!(map.len(), 2);
}

#[test]
fn field_clone_is_equal() {
    let f = named("x");
    assert_eq!(f.clone(), f);
    assert_eq!(f.clone().field_type, -1);
}

#[test]
fn user_clone_keeps_data_and_binding() {
    let mut user = User::default();
    user.uid = "u7".to_string();
    user.username = "carol".to_string();
    user.is_a_system = true;
    user.last_operation_time = 99;
    user.insert_field("a".to_string(), named("x"));
    let unbound = user.clone();
    assert!(!unbound.is_bound());
    let api = SPApi::new("key", SPEndpoint::Custom("http://h".to_string())).unwrap();
    let response = GetUserResponse { exists: None, id: None, content: Some(user) };
    let user = api.get_user(Ok(response)).unwrap();
    let copy = user.clone();
    assert!(copy.is_bound());
    assert_eq!(copy.uid, "u7");
    assert_eq!(copy.username, "carol");
    assert!(copy.is_a_system);
    assert_eq!(copy.last_operation_time, 99);
    assert_eq!(copy.get_fields(), user.get_fields());
    assert_eq!(copy.update().url, "http://h/v1/user/u7");
    assert_eq!(format!("{:?}", copy.update()), format!("{:?}", user.update()));
}

#[test]
fn client_clone_keeps_endpoint_and_credential() {
    let client = Client::new("key", SPEndpoint::Custom("http://h".to_string())).unwrap();
    let copy = client.clone();
    assert_eq!(copy.auth_key(), "key");
    assert_eq!(copy.get_url("/p"), "http://h/p");
}

#[test]
fn only_a_transport_error_can_be_a_decode_failure() {
    assert!(!SPError::ContentMissingError.is_decode());
    assert!(!SPError::UnspecifiedError("x".to_string()).is_decode());
    let failure = reqwest::Client::new().get("not a url").build().unwrap_err();
    assert!(failure.is_builder());
    assert!(!SPError::ReqwestError(failure).is_decode());
}

#[test]
fn user_from_parts_holds_its_parts_and_is_unbound() {
    let mut fields = FieldMap::new();
    fields.insert("a".to_string(), named("x"));
    fields.insert("b".to_string(), named("y"));
    let user = User::from_parts("u9".to_string(), fields, "dave".to_string(), true, -5);
    assert!(!user.is_bound());
    assert_eq!(user.uid(), "u9");
    assert_eq!(user.username(), "dave");
    assert!(user.is_a_system());
    assert_eq!(user.last_operation_time(), -5);
    assert_eq!(
        user.get_fields(),
        vec![("a".to_string(), named("x")), ("b".to_string(), named("y"))]
    );
    let empty = User::from_parts(String::new(), FieldMap::new(), String::new(), false, 0);
    assert_eq!(format!("{:?}", empty), format!("{:?}", User::default()));
}

#[test]
fn getters_read_the_fields() {
    let mut user = User::default();
    user.uid = "u3".to_string();
    user.username = "erin".to_string();
    user.last_operation_time = 12;
    assert_eq!(user.uid(), "u3");
    assert_eq!(user.username(), "erin");
    assert!(!user.is_a_system());
    assert_eq!(user.last_operation_time(), 12);
}

#[test]
fn setting_the_flag_changes_the_flag_only() {
    let mut fields = FieldMap::new();
    fields.insert("a".to_string(), named("x"));
    let user = User::from_parts("u9".to_string(), fields, "dave".to_string(), false, 4);
    let api = SPApi::new("key", SPEndpoint::Production).unwrap();
    let response = GetUserResponse { exists: None, id: None, content: Some(user) };
    let mut user = api.get_user(Ok(response)).unwrap();
    user.set_is_a_system(true);
    assert!(user.is_a_system());
    assert!(user.is_a_system);
    assert_eq!(user.uid(), "u9");
    assert_eq!(user.username(), "dave");
    assert_eq!(user.last_operation_time(), 4);
    assert_eq!(user.get_fields(), vec![("a".to_string(), named("x"))]);
    assert!(user.is_bound());
    user.set_is_a_system(true);
    assert!(user.is_a_system());
    user.set_is_a_system(false);
    assert!(!user.is_a_system());
}

#[test]
fn transport_error_converts_into_its_variant() {
    let failure = reqwest::Client::new().get("not a url").build().unwrap_err();
    let text = failure.to_string();
    let error = SPError::from(failure);
    match &error {
        SPError::ReqwestError(inner) => assert!(inner.is_builder()),
        other => panic!("unexpected error: {:?}", other),
    }
    assert_eq!(error.message(), text);
    assert!(!error.is_decode());
    let converted: SPError =
        reqwest::Client::new().get("also not a url").build().unwrap_err().into();
    assert!(matches!(converted, SPError::ReqwestError(_)));
}
