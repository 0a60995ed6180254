use cooplan_definitions_lib::definition::Definition;
use definition_provider::config::LatestDefinitionUpdaterConfig;
use definition_provider::latest_definition_updater::{
    LatestDefinitionUpdater, UpdaterAction, UpdaterEvent, LATEST_DEFINITION_OUTPUT_KEY,
};
use definition_provider::storage_request::StorageRequest;

fn updater(retry_count: u32) -> LatestDefinitionUpdater {
    let (output, _output_receiver) = tokio::sync::mpsc::channel::<(String, serde_json::Value)>(1);
    let (requests, _request_receiver) = async_channel::bounded::<StorageRequest>(1);
    LatestDefinitionUpdater::new(
        output,
        LatestDefinitionUpdaterConfig {
            update_interval_seconds: 60,
            retry_count,
            retry_interval_seconds: 5,
        },
        requests,
    )
}

fn is_wait(action: &UpdaterAction, expected: u64) -> bool {
    matches!(action, UpdaterAction::Wait { seconds } if *seconds == expected)
}

#[test]
fn new_updater_has_no_failures() {
    let updater = updater(3);
    assert_eq!(updater.errors_since_last_success(), 0);
    assert_eq!(updater.config().retry_count, 3);
    assert_eq!(updater.config().update_interval_seconds, 60);
    assert_eq!(updater.config().retry_interval_seconds, 5);
}

#[test]
fn start_and_wait_ask_for_the_latest_definition() {
    let mut updater = updater(3);
    assert!(matches!(updater.step(UpdaterEvent::Started), UpdaterAction::RequestLatest));
    assert!(matches!(updater.step(UpdaterEvent::WaitElapsed), UpdaterAction::RequestLatest));
    assert_eq!(updater.errors_since_last_success(), 0);
}

#[test]
fn failures_are_retried_until_the_retry_count() {
    let mut updater = updater(3);
    let first = updater.step(UpdaterEvent::RequestFailed);
    assert!(is_wait(&first, 5));
    assert_eq!(updater.errors_since_last_success(), 1);
    let second = updater.step(UpdaterEvent::PublishFailed);
    assert!(is_wait(&second, 5));
    assert_eq!(updater.errors_since_last_success(), 2);
    let third = updater.step(UpdaterEvent::RequestFailed);
    assert!(matches!(third, UpdaterAction::Shutdown));
    assert_eq!(updater.errors_since_last_success(), 3);
}

#[test]
fn retry_count_of_one_shuts_down_at_the_first_failure() {
    let mut updater = updater(1);
    assert!(matches!(updater.step(UpdaterEvent::RequestFailed), UpdaterAction::Shutdown));
}

#[test]
fn retry_count_of_zero_shuts_down_at_the_first_failure() {
    let mut updater = updater(0);
    assert!(matches!(updater.step(UpdaterEvent::PublishFailed), UpdaterAction::Shutdown));
}

#[test]
fn publication_resets_the_failure_count() {
    let mut updater = updater(3);
    updater.step(UpdaterEvent::RequestFailed);
    updater.step(UpdaterEvent::RequestFailed);
    assert_eq!(updater.errors_since_last_success(), 2);
    let action = updater.step(UpdaterEvent::Published);
    assert!(is_wait(&action, 60));
    assert_eq!(updater.errors_since_last_success(), 0);
    // the full budget of retries is available again
    assert!(is_wait(&updater.step(UpdaterEvent::RequestFailed), 5));
    assert!(is_wait(&updater.step(UpdaterEvent::RequestFailed), 5));
    assert!(matches!(updater.step(UpdaterEvent::RequestFailed), UpdaterAction::Shutdown));
}

#[test]
fn received_definition_is_published_as_json() {
    let mut updater = updater(3);
    updater.step(UpdaterEvent::RequestFailed);
    let definition = Definition::new("abc123".to_string(), Vec::new());
    match updater.step(UpdaterEvent::DefinitionReceived(definition)) {
        UpdaterAction::Publish { key, value } => {
            assert_eq!(key, LATEST_DEFINITION_OUTPUT_KEY);
            assert_eq!(key, "latest_definition");
            assert_eq!(value["version"], serde_json::Value::String("abc123".to_string()));
            assert_eq!(value["categories"], serde_json::Value::Array(Vec::new()));
        }
        _ => panic!("expected the definition to be published"),
    }
    // receiving is not yet a success: only the publication resets the count
    assert_eq!(updater.errors_since_last_success(), 1);
}

#[test]
fn failed_serialization_counts_as_a_failure() {
    let mut updater = updater(2);
    let action = updater.after_serialization(Err("boom".to_string()));
    assert!(is_wait(&action, 5));
    assert_eq!(updater.errors_since_last_success(), 1);
    let action = updater.after_serialization(Err("boom".to_string()));
    assert!(matches!(action, UpdaterAction::Shutdown));
}

#[test]
fn serialized_definition_is_published_unchanged() {
    let mut updater = updater(2);
    let value = serde_json::Value::String("payload".to_string());
    match updater.after_serialization(Ok(value.clone())) {
        UpdaterAction::Publish { key, value: published } => {
            assert_eq!(key, "latest_definition");
            assert_eq!(published, value);
        }
        _ => panic!("expected a publication"),
    }
}
