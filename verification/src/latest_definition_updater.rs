use crate::config::LatestDefinitionUpdaterConfig;
use crate::definitions::{definition_json, definition_to_json};
use crate::storage_request::StorageRequest;
use vstd::prelude::*;
use vstd::string::*;

verus! {

/// The key under which the latest definition is handed to the output side.
pub const LATEST_DEFINITION_OUTPUT_KEY: &'static str = "latest_definition";

/// Whether a failure count lets the updater go on: nothing has failed since
/// the last success, or fewer failures than the retry count.
pub open spec fn tolerated(errors: nat, retry_count: nat) -> bool {
    errors == 0 || errors < retry_count
}

/// The failure count after one more failure, or `None` when that failure
/// brings the count to the retry count and the updater shuts down.
pub open spec fn count_after_failure(errors: nat, retry_count: nat) -> Option<nat> {
    if errors + 1 >= retry_count {
        None
    } else {
        Some(errors + 1)
    }
}

/// The failure count after `failures` failures in a row, starting from
/// `errors`, or `None` when one of them shut the updater down.
pub open spec fn count_after_failures(errors: nat, retry_count: nat, failures: nat) -> Option<nat>
    decreases failures,
{
    if failures == 0 {
        Some(errors)
    } else {
        match count_after_failures(errors, retry_count, (failures - 1) as nat) {
            Some(e) => count_after_failure(e, retry_count),
            None => None,
        }
    }
}

/// The number of failures in a row, counted from a success, at which the
/// updater shuts down: the retry count, and at least one.
pub open spec fn shutdown_threshold(retry_count: nat) -> nat {
    if retry_count == 0 {
        1
    } else {
        retry_count
    }
}

/// What the updater has just seen happen.
pub enum UpdaterEvent {
    /// The updater has just been started.
    Started,
    /// The wait it asked for is over.
    WaitElapsed,
    /// The storage side answered the request for the latest definition.
    DefinitionReceived(cooplan_definitions_lib::definition::Definition),
    /// The request for the latest definition could not be sent, or no
    /// definition came back.
    RequestFailed,
    /// The latest definition was handed to the output side.
    Published,
    /// The latest definition could not be handed to the output side.
    PublishFailed,
}

/// What the updater asks to be done next.
pub enum UpdaterAction {
    /// Ask the storage side for the latest definition.
    RequestLatest,
    /// Hand `value` to the output side under `key`.
    Publish { key: String, value: serde_json::Value },
    /// Wait this many seconds, then report that the wait is over.
    Wait { seconds: u64 },
    /// Stop the service: too many failures in a row.
    Shutdown,
}

/// One failure, as the updater answers it: the count goes up by one; the
/// updater shuts down when the count reaches the retry count, and otherwise
/// waits the retry interval before it asks again.
pub open spec fn failure_answered(
    before: nat,
    config: LatestDefinitionUpdaterConfig,
    after: nat,
    action: UpdaterAction,
) -> bool {
    &&& after == before + 1
    &&& match count_after_failure(before, config.retry_count as nat) {
        None => action is Shutdown,
        Some(_) => action == (UpdaterAction::Wait { seconds: config.retry_interval_seconds }),
    }
}

/// Keeps the latest definition published: asks the storage side for it,
/// hands it to the output side, and waits the update interval; on a failure
/// it waits the retry interval and asks again, and it shuts the service down
/// when failures in a row reach the retry count.
pub struct LatestDefinitionUpdater {
    latest_definition_output: tokio::sync::mpsc::Sender<(String, serde_json::Value)>,
    config: LatestDefinitionUpdaterConfig,
    storage_request_sender: async_channel::Sender<StorageRequest>,
    errors_since_last_success: u32,
}

impl LatestDefinitionUpdater {
    /// The failures in a row since the last successful publication.
    pub closed spec fn errors(&self) -> nat {
        self.errors_since_last_success as nat
    }

    /// The intervals and the retry count the updater was made with.
    pub closed spec fn settings(&self) -> LatestDefinitionUpdaterConfig {
        self.config
    }

    /// Where the latest definition is handed over.
    pub closed spec fn output(&self) -> tokio::sync::mpsc::Sender<(String, serde_json::Value)> {
        self.latest_definition_output
    }

    /// Where requests for the latest definition are sent.
    pub closed spec fn requests(&self) -> async_channel::Sender<StorageRequest> {
        self.storage_request_sender
    }

    /// The updater is still running: its failure count is tolerated.
    pub open spec fn wf(&self) -> bool {
        tolerated(self.errors(), self.settings().retry_count as nat)
    }

    pub fn new(
        latest_definition_output: tokio::sync::mpsc::Sender<(String, serde_json::Value)>,
        config: LatestDefinitionUpdaterConfig,
        storage_request_sender: async_channel::Sender<StorageRequest>,
    ) -> (updater: LatestDefinitionUpdater)
        ensures
            updater.errors() == 0,
            updater.settings() == config,
            updater.output() == latest_definition_output,
            updater.requests() == storage_request_sender,
            updater.wf(),
    {
        LatestDefinitionUpdater {
            latest_definition_output,
            config,
            storage_request_sender,
            errors_since_last_success: 0u32,
        }
    }

    /// Where the latest definition is handed over.
    pub fn latest_definition_output(&self) -> (output: &tokio::sync::mpsc::Sender<
        (String, serde_json::Value),
    >)
        ensures
            *output == self.output(),
    {
        &self.latest_definition_output
    }

    /// Where requests for the latest definition are sent.
    pub fn storage_request_sender(&self) -> (sender: &async_channel::Sender<StorageRequest>)
        ensures
            *sender == self.requests(),
    {
        &self.storage_request_sender
    }

    pub fn config(&self) -> (config: LatestDefinitionUpdaterConfig)
        ensures
            config == self.settings(),
    {
        self.config
    }

    pub fn errors_since_last_success(&self) -> (errors: u32)
        ensures
            errors == self.errors(),
    {
        self.errors_since_last_success
    }

    fn handle_error(&mut self) -> (action: UpdaterAction)
        requires
            old(self).wf(),
        ensures
            final(self).settings() == old(self).settings(),
            final(self).output() == old(self).output(),
            final(self).requests() == old(self).requests(),
            failure_answered(old(self).errors(), old(self).settings(), final(self).errors(), action),
            !(action is Shutdown) ==> final(self).wf(),
    {
        self.errors_since_last_success = self.errors_since_last_success + 1;
        if self.errors_since_last_success >= self.config.retry_count {
            UpdaterAction::Shutdown
        } else {
            UpdaterAction::Wait { seconds: self.config.retry_interval_seconds }
        }
    }

    /// Answers the outcome of turning the latest definition into JSON: the
    /// JSON is published under the latest-definition key, and a failure is
    /// answered as any other failure.
    pub fn after_serialization(&mut self, outcome: Result<serde_json::Value, String>) -> (action:
        UpdaterAction)
        requires
            old(self).wf(),
        ensures
            final(self).settings() == old(self).settings(),
            final(self).output() == old(self).output(),
            final(self).requests() == old(self).requests(),
            match outcome {
                Ok(value) => {
                    &&& action matches UpdaterAction::Publish { key, value: published }
                    &&& key@ == LATEST_DEFINITION_OUTPUT_KEY@
                    &&& published == value
                    &&& final(self).errors() == old(self).errors()
                },
                Err(_) => failure_answered(
                    old(self).errors(),
                    old(self).settings(),
                    final(self).errors(),
                    action,
                ),
            },
            !(action is Shutdown) ==> final(self).wf(),
    {
        match outcome {
            Ok(value) => UpdaterAction::Publish {
                key: String::from_str(LATEST_DEFINITION_OUTPUT_KEY),
                value,
            },
            Err(_) => self.handle_error(),
        }
    }

    /// Decides what to do after `event`.
    pub fn step(&mut self, event: UpdaterEvent) -> (action: UpdaterAction)
        requires
            old(self).wf(),
        ensures
            final(self).settings() == old(self).settings(),
            final(self).output() == old(self).output(),
            final(self).requests() == old(self).requests(),
            match event {
                UpdaterEvent::Started | UpdaterEvent::WaitElapsed => {
                    &&& action is RequestLatest
                    &&& final(self).errors() == old(self).errors()
                },
                UpdaterEvent::DefinitionReceived(definition) => match definition_json(definition) {
                    Ok(value) => {
                        &&& action matches UpdaterAction::Publish { key, value: published }
                        &&& key@ == LATEST_DEFINITION_OUTPUT_KEY@
                        &&& published == value
                        &&& final(self).errors() == old(self).errors()
                    },
                    Err(_) => failure_answered(
                        old(self).errors(),
                        old(self).settings(),
                        final(self).errors(),
                        action,
                    ),
                },
                UpdaterEvent::RequestFailed | UpdaterEvent::PublishFailed => failure_answered(
                    old(self).errors(),
                    old(self).settings(),
                    final(self).errors(),
                    action,
                ),
                UpdaterEvent::Published => {
                    &&& final(self).errors() == 0
                    &&& action == (UpdaterAction::Wait {
                        seconds: old(self).settings().update_interval_seconds,
                    })
                },
            },
            !(action is Shutdown) ==> final(self).wf(),
    {
        match event {
            UpdaterEvent::Started => UpdaterAction::RequestLatest,
            UpdaterEvent::WaitElapsed => UpdaterAction::RequestLatest,
            UpdaterEvent::DefinitionReceived(definition) => {
                let outcome = definition_to_json(definition);
                self.after_serialization(outcome)
            },
            UpdaterEvent::RequestFailed => self.handle_error(),
            UpdaterEvent::PublishFailed => self.handle_error(),
            UpdaterEvent::Published => {
                self.errors_since_last_success = 0;
                UpdaterAction::Wait { seconds: self.config.update_interval_seconds }
            },
        }
    }
}

/// The number of further failures in a row at which the updater shuts down
/// when `errors` failures have already been counted: the retry count less
/// those already counted, and at least one.
pub open spec fn shutdown_threshold_from(errors: nat, retry_count: nat) -> nat {
    if errors + 1 >= retry_count {
        1
    } else {
        (retry_count - errors) as nat
    }
}

/// With `errors` failures already counted, further failures in a row are
/// retried until their number reaches the retry count less those already
/// counted (at least one): the updater is still running after fewer, with
/// `errors` plus their number counted, and has shut down after that many or
/// more.
pub proof fn lemma_failures_in_a_row_from(errors: nat, retry_count: nat, failures: nat)
    ensures
        count_after_failures(errors, retry_count, failures) == (if failures
            < shutdown_threshold_from(errors, retry_count) {
            Some(errors + failures)
        } else {
            None::<nat>
        }),
    decreases failures,
{
    if failures > 0 {
        lemma_failures_in_a_row_from(errors, retry_count, (failures - 1) as nat);
    }
}

/// Counted from a success (or from the start), failures in a row are retried
/// until their number reaches the retry count (at least one): the updater is
/// still running after fewer failures than that, with the count equal to the
/// number of failures, and has shut down after that many or more.
pub proof fn lemma_failures_in_a_row(retry_count: nat, failures: nat)
    ensures
        count_after_failures(0, retry_count, failures) == (if failures < shutdown_threshold(
            retry_count,
        ) {
            Some(failures)
        } else {
            None::<nat>
        }),
{
    lemma_failures_in_a_row_from(0, retry_count, failures);
}

/// Every failure count the updater can be left with while it runs is
/// tolerated again: a failure that does not shut it down keeps it running.
pub proof fn lemma_failure_keeps_running(errors: nat, retry_count: nat)
    requires
        tolerated(errors, retry_count),
    ensures
        count_after_failure(errors, retry_count) matches Some(e) ==> tolerated(e, retry_count)
            && e <= retry_count,
{
}

} // verus!
