use cooplan_amqp_api::api::input::request::Request;
use cooplan_definitions_lib::definition::Definition;
use definition_provider::definition_request::{
    answer, answer_with_json, decide, decide_request, route_action, version_parameter,
    StorageReply, ELEMENT_NAME, GET_ACTION, VERSION_KEY,
};
use definition_provider::error::{Error, ErrorKind};
use definition_provider::request_failure::{FailureKind, RequestFailure};
use serde_json::Value;

fn data_with(key: &str, value: Value) -> serde_json::Map<String, Value> {
    let mut data = serde_json::Map::new();
    data.insert(key.to_string(), value);
    data
}

fn header(action: &str) -> Value {
    let mut header = serde_json::Map::new();
    header.insert("token".to_string(), Value::String("token".to_string()));
    header.insert("element".to_string(), Value::String("definition".to_string()));
    header.insert("action".to_string(), Value::String(action.to_string()));
    Value::Object(header)
}

#[test]
fn names_of_the_served_element() {
    assert_eq!(ELEMENT_NAME, "definition");
    assert_eq!(VERSION_KEY, "version");
    assert_eq!(GET_ACTION, "get");
}

#[test]
fn get_action_is_accepted() {
    assert!(route_action(&"get".to_string()).is_ok());
}

#[test]
fn other_actions_are_malformed() {
    let failure = route_action(&"delete".to_string()).unwrap_err();
    assert_eq!(failure.kind, FailureKind::MalformedRequest);
    assert_eq!(failure.message, "invalid action detected: delete");
    let failure = route_action(&"GET".to_string()).unwrap_err();
    assert_eq!(failure.message, "invalid action detected: GET");
}

#[test]
fn version_is_read_from_the_parameters() {
    let data = data_with("version", Value::String("a1b2c3".to_string()));
    assert_eq!(version_parameter(&data).unwrap(), "a1b2c3");
}

#[test]
fn missing_version_is_malformed() {
    let data = data_with("other", Value::String("a1b2c3".to_string()));
    let failure = version_parameter(&data).unwrap_err();
    assert_eq!(failure.kind, FailureKind::MalformedRequest);
    assert_eq!(failure.message, "missing 'version' from request");
}

#[test]
fn version_that_is_no_string_is_malformed() {
    let data = data_with("version", Value::from(42));
    let failure = version_parameter(&data).unwrap_err();
    assert_eq!(failure.kind, FailureKind::MalformedRequest);
    assert_eq!(failure.message, "failed to read 'version' as a string");
}

#[test]
fn header_failure_is_answered_first() {
    let data = data_with("other", Value::Null);
    let header_failure = RequestFailure {
        kind: FailureKind::MalformedRequest,
        message: "request has no header".to_string(),
    };
    let failure = decide(Err(header_failure), &data).unwrap_err();
    assert_eq!(failure.message, "request has no header");
}

#[test]
fn wrong_action_is_answered_before_the_version() {
    let data = data_with("other", Value::Null);
    let failure = decide(Ok("list".to_string()), &data).unwrap_err();
    assert_eq!(failure.message, "invalid action detected: list");
}

#[test]
fn request_without_header_is_malformed() {
    let request = Request::new(data_with("version", Value::String("v".to_string())));
    let failure = decide_request(&request).unwrap_err();
    assert_eq!(failure.kind, FailureKind::MalformedRequest);
    assert_eq!(failure.message, "request has no header");
}

#[test]
fn complete_request_asks_for_its_version() {
    let mut data = data_with("version", Value::String("0123abcd".to_string()));
    data.insert("header".to_string(), header("get"));
    let request = Request::new(data);
    assert_eq!(decide_request(&request).unwrap(), "0123abcd");
}

#[test]
fn request_for_another_action_is_malformed() {
    let mut data = data_with("version", Value::String("0123abcd".to_string()));
    data.insert("header".to_string(), header("remove"));
    let request = Request::new(data);
    let failure = decide_request(&request).unwrap_err();
    assert_eq!(failure.message, "invalid action detected: remove");
}

#[test]
fn storage_send_failure_is_internal() {
    let failure = answer(StorageReply::NotSent("channel closed".to_string())).unwrap_err();
    assert_eq!(failure.kind, FailureKind::InternalFailure);
    assert_eq!(failure.message, "failed to send storage request: channel closed");
}

#[test]
fn storage_receive_failure_is_internal() {
    let failure = answer(StorageReply::NotReceived("dropped".to_string())).unwrap_err();
    assert_eq!(failure.kind, FailureKind::InternalFailure);
    assert_eq!(failure.message, "failed to receive reply from storage: dropped");
}

#[test]
fn storage_failure_is_internal() {
    let error = Error::new(ErrorKind::InternalFailure, "failed to download definitions: x".to_string());
    let failure = answer(StorageReply::Received(Err(error))).unwrap_err();
    assert_eq!(failure.kind, FailureKind::InternalFailure);
    assert_eq!(
        failure.message,
        "failed to get latest definition: failed to download definitions: x"
    );
}

#[test]
fn received_definition_is_answered_as_json() {
    let definition = Definition::new("ffee".to_string(), Vec::new());
    let value = answer(StorageReply::Received(Ok(definition))).unwrap();
    assert_eq!(value["version"], Value::String("ffee".to_string()));
}

#[test]
fn serialization_failure_is_internal() {
    let failure = answer_with_json(Err("bad".to_string())).unwrap_err();
    assert_eq!(failure.kind, FailureKind::InternalFailure);
    assert_eq!(failure.message, "failed to serialize definition: bad");
    assert_eq!(answer_with_json(Ok(Value::Bool(true))).unwrap(), Value::Bool(true));
}
