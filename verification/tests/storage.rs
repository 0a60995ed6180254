use cooplan_definitions_lib::definition::Definition;
use cooplan_definitions_lib::validated_source_category::ValidatedSourceCategory;
use definition_provider::definition_executor::{
    download_failure, reply_outcome, version_set_failure, DefinitionFetch, FetchAction, FetchEvent,
    StorageStep,
};
use definition_provider::definition_file_reader::{
    accept_validation, category_read_failure, finish_definition, take_category,
    DefinitionFileReader, DefinitionReading, ReadingAction, ReadingEvent,
};
use definition_provider::error::{Error, ErrorKind};
use definition_provider::git::branch_is_usable;
use definition_provider::git_request_dispatch::{dispatcher_ids, repository_dir, GitRequestDispatch};
use definition_provider::storage_request::{DefinitionStorageAction, StorageRequest};

fn category(id: &str) -> ValidatedSourceCategory {
    ValidatedSourceCategory {
        id: id.to_string(),
        parent: None,
        parent_name: None,
        name: format!("category {}", id),
        selectable_as_last: false,
        attributes: Vec::new(),
    }
}

fn git_config() -> cooplan_definition_git_downloader::git_config::GitConfig {
    cooplan_definition_git_downloader::git_config::GitConfig {
        repository_url: "https://example.invalid/definitions.git".to_string(),
        repository_local_dir: "ignored".to_string(),
        remote_name: "origin".to_string(),
        remote_branch: "main".to_string(),
    }
}

#[test]
fn reader_keeps_its_path() {
    let reader = DefinitionFileReader::new("./3".to_string());
    assert_eq!(reader.path(), "./3");
}

#[test]
fn reading_the_version_of_a_missing_repository_fails() {
    let reader = DefinitionFileReader::new("/nonexistent/definitions/for/tests".to_string());
    let (mut reading, first) = DefinitionReading::start(Ok(0));
    assert!(matches!(first, ReadingAction::ReadVersion));
    match reading.read_version(&reader) {
        ReadingAction::Finish(Err(error)) => {
            assert_eq!(error.kind, ErrorKind::InternalFailure);
            assert!(error.message.starts_with("failed to read definition's version: "));
        }
        _ => panic!("expected a version failure"),
    }
}

#[test]
fn category_read_failure_message() {
    let error = category_read_failure("[a.json] invalid");
    assert_eq!(error.kind, ErrorKind::InternalFailure);
    assert_eq!(error.message, "failed to read category: [a.json] invalid");
}

#[test]
fn checked_categories_are_kept_in_order() {
    let mut categories = Vec::new();
    assert!(accept_validation(&mut categories, Ok(category("a"))).is_ok());
    assert!(accept_validation(&mut categories, Ok(category("b"))).is_ok());
    assert_eq!(categories.len(), 2);
    assert_eq!(categories[0].id, "a");
    assert_eq!(categories[1].id, "b");
}

#[test]
fn failed_check_stops_with_its_message() {
    let mut categories = vec![category("a")];
    let error = accept_validation(
        &mut categories,
        Err("source category 'b' has no id".to_string()),
    )
    .unwrap_err();
    assert_eq!(error.kind, ErrorKind::InternalFailure);
    assert_eq!(
        error.message,
        "failed to validate source category: source category 'b' has no id"
    );
    assert_eq!(categories.len(), 1);
}

#[test]
fn definition_is_made_from_the_version_and_categories() {
    let definition = finish_definition(vec![category("a")], Ok("abc".to_string())).unwrap();
    assert_eq!(definition.version(), "abc");
    assert_eq!(definition.categories().len(), 1);
    assert_eq!(definition, Definition::new("abc".to_string(), vec![category("a")]));
}

#[test]
fn version_failure_ends_the_reading() {
    let error = finish_definition(Vec::new(), Err("no head".to_string())).unwrap_err();
    assert_eq!(error.kind, ErrorKind::InternalFailure);
    assert_eq!(error.message, "failed to read definition's version: no head");
}

#[test]
fn fetch_failure_messages() {
    assert_eq!(
        download_failure("network down").message,
        "failed to download definitions: network down"
    );
    let error = version_set_failure("abc", "unknown commit");
    assert_eq!(error.kind, ErrorKind::InternalFailure);
    assert_eq!(
        error.message,
        "failed to update definitions to version 'abc': unknown commit"
    );
}

#[test]
fn reply_outcomes() {
    assert!(reply_outcome(true, true).is_ok());
    assert!(reply_outcome(false, true).is_ok());
    assert_eq!(reply_outcome(true, false).unwrap_err().message, "failed to send ok as result");
    assert_eq!(
        reply_outcome(false, false).unwrap_err().message,
        "failed to send error as result"
    );
}

#[test]
fn repository_directories_are_named_after_the_dispatcher() {
    assert_eq!(repository_dir(0), "./0");
    assert_eq!(repository_dir(7), "./7");
    assert_eq!(repository_dir(10), "./10");
    assert_eq!(repository_dir(305), "./305");
    assert_eq!(repository_dir(u32::MAX), "./4294967295");
    assert_ne!(repository_dir(12), repository_dir(21));
}

#[test]
fn dispatcher_ids_count_up_from_zero() {
    assert_eq!(dispatcher_ids(0), Vec::<u32>::new());
    assert_eq!(dispatcher_ids(4), vec![0, 1, 2, 3]);
    assert_eq!(dispatcher_ids(u16::MAX).len(), 65535);
}

#[test]
fn dispatcher_reads_from_its_own_directory() {
    let (_sender, receiver) = async_channel::bounded::<StorageRequest>(1);
    let dispatch = GitRequestDispatch::new(42, git_config(), receiver);
    assert_eq!(dispatch.definition_file_reader().path(), "./42");
}

#[test]
fn request_for_the_latest_definition_is_dropped() {
    let (_sender, receiver) = async_channel::bounded::<StorageRequest>(1);
    let dispatch = GitRequestDispatch::new(1, git_config(), receiver);
    let (replier, mut reply) = tokio::sync::oneshot::channel::<Result<Definition, Error>>();
    let request = StorageRequest::DefinitionRequest(DefinitionStorageAction::GetLatest { replier });
    assert!(matches!(dispatch.serve(request), StorageStep::Done(Ok(()))));
    // no answer is given: the answer channel is closed
    assert!(reply.try_recv().is_err());
}

fn source(id: Option<&str>) -> cooplan_definitions_lib::source_category::SourceCategory {
    cooplan_definitions_lib::source_category::SourceCategory {
        id: id.map(|id| id.to_string()),
        parent: None,
        parent_name: None,
        name: "colors".to_string(),
        selectable_as_last: None,
        attributes: Vec::new(),
    }
}

#[test]
fn read_category_is_checked_and_kept() {
    let mut categories = Vec::new();
    assert!(take_category(&mut categories, Ok(source(Some("c1")))).is_ok());
    assert_eq!(categories.len(), 1);
    assert_eq!(categories[0].id, "c1");
    assert_eq!(categories[0].name, "colors");
}

#[test]
fn category_without_id_ends_the_reading() {
    let mut categories = vec![category("a")];
    let error = take_category(&mut categories, Ok(source(None))).unwrap_err();
    assert_eq!(error.kind, ErrorKind::InternalFailure);
    assert_eq!(
        error.message,
        "failed to validate source category: source category 'colors' has no id"
    );
    assert_eq!(categories.len(), 1);
}

#[test]
fn failed_category_read_ends_the_reading() {
    let mut categories = Vec::new();
    let error = take_category(&mut categories, Err("[x.json] gone".to_string())).unwrap_err();
    assert_eq!(error.message, "failed to read category: [x.json] gone");
    assert!(categories.is_empty());
}

#[test]
fn fetch_goes_through_its_steps_in_order() {
    let (mut fetch, first) = DefinitionFetch::new("abc".to_string());
    assert!(matches!(first, FetchAction::Download));
    match fetch.next(FetchEvent::Downloaded(Ok(()))) {
        FetchAction::CheckOut { version } => assert_eq!(version, "abc"),
        _ => panic!("expected a check-out"),
    }
    assert!(matches!(fetch.next(FetchEvent::CheckedOut(Ok(()))), FetchAction::Read));
    let read: Result<Definition, Error> = Ok(Definition::new("abc".to_string(), Vec::new()));
    match fetch.next(FetchEvent::DefinitionRead(read)) {
        FetchAction::Reply(Ok(definition)) => assert_eq!(definition.version(), "abc"),
        _ => panic!("expected the definition to be handed back"),
    }
    match fetch.next(FetchEvent::Replied(true)) {
        FetchAction::Finish(outcome) => assert!(outcome.is_ok()),
        _ => panic!("expected the end"),
    }
}

#[test]
fn fetch_stops_at_a_failed_download() {
    let (mut fetch, _) = DefinitionFetch::new("abc".to_string());
    match fetch.next(FetchEvent::Downloaded(Err("offline".to_string()))) {
        FetchAction::Finish(Err(error)) => {
            assert_eq!(error.message, "failed to download definitions: offline")
        }
        _ => panic!("expected the fetch to stop"),
    }
}

#[test]
fn fetch_stops_at_a_failed_check_out() {
    let (mut fetch, _) = DefinitionFetch::new("abc".to_string());
    fetch.next(FetchEvent::Downloaded(Ok(())));
    match fetch.next(FetchEvent::CheckedOut(Err("bad object".to_string()))) {
        FetchAction::Finish(Err(error)) => assert_eq!(
            error.message,
            "failed to update definitions to version 'abc': bad object"
        ),
        _ => panic!("expected the fetch to stop"),
    }
}

#[test]
fn fetch_hands_back_the_read_failure_as_it_is() {
    let (mut fetch, _) = DefinitionFetch::new("abc".to_string());
    fetch.next(FetchEvent::Downloaded(Ok(())));
    fetch.next(FetchEvent::CheckedOut(Ok(())));
    let failure = Error::new(ErrorKind::InternalFailure, "failed to read category: x".to_string());
    match fetch.next(FetchEvent::DefinitionRead(Err(failure))) {
        FetchAction::Reply(Err(error)) => {
            assert_eq!(error.message, "failed to read category: x")
        }
        _ => panic!("expected the failure to be handed back"),
    }
    match fetch.next(FetchEvent::Replied(false)) {
        FetchAction::Finish(Err(error)) => {
            assert_eq!(error.message, "failed to send error as result")
        }
        _ => panic!("expected a reply failure"),
    }
}

fn named_source(id: &str, name: &str) -> cooplan_definitions_lib::source_category::SourceCategory {
    cooplan_definitions_lib::source_category::SourceCategory {
        id: Some(id.to_string()),
        parent: None,
        parent_name: None,
        name: name.to_string(),
        selectable_as_last: Some(true),
        attributes: Vec::new(),
    }
}

#[test]
fn reading_keeps_every_category_in_reading_order() {
    let (mut reading, first) = DefinitionReading::start(Ok(2));
    assert!(matches!(first, ReadingAction::ReadFile { index: 0 }));
    let action = reading.next(ReadingEvent::FileRead(Ok(named_source("b", "second"))));
    assert!(matches!(action, ReadingAction::ReadFile { index: 1 }));
    let action = reading.next(ReadingEvent::FileRead(Ok(named_source("a", "first"))));
    assert!(matches!(action, ReadingAction::ReadVersion));
    match reading.next(ReadingEvent::VersionRead(Ok("c0ffee".to_string()))) {
        ReadingAction::Finish(Ok(definition)) => {
            assert_eq!(definition.version(), "c0ffee");
            let categories = definition.categories();
            assert_eq!(categories.len(), 2);
            assert_eq!(categories[0].id, "b");
            assert_eq!(categories[1].id, "a");
            assert!(categories[0].selectable_as_last);
        }
        _ => panic!("expected a definition"),
    }
}

#[test]
fn reading_without_files_gives_an_empty_definition() {
    let (mut reading, first) = DefinitionReading::start(Ok(0));
    assert!(matches!(first, ReadingAction::ReadVersion));
    match reading.next(ReadingEvent::VersionRead(Ok("v".to_string()))) {
        ReadingAction::Finish(Ok(definition)) => {
            assert_eq!(definition, Definition::new("v".to_string(), Vec::new()))
        }
        _ => panic!("expected a definition"),
    }
}

#[test]
fn reading_stops_at_a_failed_listing() {
    let (_, first) = DefinitionReading::start(Err("no such directory".to_string()));
    match first {
        ReadingAction::Finish(Err(error)) => {
            assert_eq!(error.message, "failed to read category: no such directory")
        }
        _ => panic!("expected the reading to stop"),
    }
}

#[test]
fn reading_stops_at_a_failed_check() {
    let (mut reading, _) = DefinitionReading::start(Ok(3));
    match reading.next(ReadingEvent::FileRead(Ok(source(None)))) {
        ReadingAction::Finish(Err(error)) => assert_eq!(
            error.message,
            "failed to validate source category: source category 'colors' has no id"
        ),
        _ => panic!("expected the reading to stop"),
    }
}

#[test]
fn reading_stops_at_a_failed_file_or_version() {
    let (mut reading, _) = DefinitionReading::start(Ok(3));
    match reading.next(ReadingEvent::FileRead(Err("[c.json] denied".to_string()))) {
        ReadingAction::Finish(Err(error)) => {
            assert_eq!(error.message, "failed to read category: [c.json] denied")
        }
        _ => panic!("expected the reading to stop"),
    }
    let (mut reading, _) = DefinitionReading::start(Ok(0));
    match reading.next(ReadingEvent::VersionRead(Err("no head".to_string()))) {
        ReadingAction::Finish(Err(error)) => {
            assert_eq!(error.message, "failed to read definition's version: no head")
        }
        _ => panic!("expected the reading to stop"),
    }
}

#[test]
fn branch_names_with_a_nul_character_are_refused() {
    assert!(branch_is_usable(&git_config()));
    let mut config = git_config();
    config.remote_branch = "ma\0in".to_string();
    assert!(!branch_is_usable(&config));
    config.remote_branch = String::new();
    assert!(branch_is_usable(&config));
}

#[test]
fn fetch_hands_the_read_back_through_reply() {
    let (mut fetch, _) = DefinitionFetch::new("abc".to_string());
    fetch.next(FetchEvent::Downloaded(Ok(())));
    fetch.next(FetchEvent::CheckedOut(Ok(())));
    let (replier, mut reply) = tokio::sync::oneshot::channel::<Result<Definition, Error>>();
    let definition = Definition::new("abc".to_string(), Vec::new());
    assert!(fetch.reply(replier, Ok(definition.clone())).is_ok());
    assert_eq!(reply.try_recv().unwrap().unwrap(), definition);
}

#[test]
fn lost_reply_is_reported() {
    let (mut fetch, _) = DefinitionFetch::new("abc".to_string());
    fetch.next(FetchEvent::Downloaded(Ok(())));
    fetch.next(FetchEvent::CheckedOut(Ok(())));
    let (replier, reply) = tokio::sync::oneshot::channel::<Result<Definition, Error>>();
    drop(reply);
    let error = fetch
        .reply(replier, Err(Error::new(ErrorKind::InternalFailure, "x".to_string())))
        .unwrap_err();
    assert_eq!(error.message, "failed to send error as result");
}
