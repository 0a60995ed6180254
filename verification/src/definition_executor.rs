use crate::channels::send_once;
use crate::error::{Error, ErrorKind};
use crate::git::{
    check_out_version, download, downloader_branch, usable_branch, CheckedOut, Downloaded, GitStep,
};
use crate::storage_request::DefinitionStorageAction;
use crate::text::{lemma_concat_starts_with, message_with_detail, starts_with};
use vstd::prelude::*;
use vstd::string::*;

verus! {

/// How a failure to get the local copy of the repository is reported.
pub const DOWNLOAD_FAILURE: &'static str = "failed to download definitions: ";

/// How a failure to check the repository out at a version begins.
pub const VERSION_SET_FAILURE: &'static str = "failed to update definitions to version '";

/// What stands between the version and the detail of that failure.
pub const VERSION_SET_FAILURE_SEPARATOR: &'static str = "': ";

/// How a definition that could not be handed back is reported.
pub const DEFINITION_REPLY_FAILURE: &'static str = "failed to send ok as result";

/// How a read failure that could not be handed back is reported.
pub const ERROR_REPLY_FAILURE: &'static str = "failed to send error as result";

/// The message of a failure to check the repository out at `version`.
pub open spec fn version_set_message(version: Seq<char>, detail: Seq<char>) -> Seq<char> {
    VERSION_SET_FAILURE@ + version + VERSION_SET_FAILURE_SEPARATOR@ + detail
}

/// The failures fetching a definition can end in: an internal failure whose
/// message tells which step failed.
pub open spec fn fetch_failure(error: Error) -> bool {
    &&& error.kind == ErrorKind::InternalFailure
    &&& {
        ||| starts_with(error.message@, DOWNLOAD_FAILURE@)
        ||| starts_with(error.message@, VERSION_SET_FAILURE@)
        ||| error.message@ == DEFINITION_REPLY_FAILURE@
        ||| error.message@ == ERROR_REPLY_FAILURE@
    }
}

/// The failure reported when the local copy of the repository cannot be had.
pub fn download_failure(detail: &str) -> (error: Error)
    ensures
        error.kind == ErrorKind::InternalFailure,
        error.message@ == DOWNLOAD_FAILURE@ + detail@,
        fetch_failure(error),
{
    proof {
        lemma_concat_starts_with(DOWNLOAD_FAILURE@, detail@);
    }
    Error::new(ErrorKind::InternalFailure, message_with_detail(DOWNLOAD_FAILURE, detail))
}

/// The failure reported when the repository cannot be checked out at `version`.
pub fn version_set_failure(version: &str, detail: &str) -> (error: Error)
    ensures
        error.kind == ErrorKind::InternalFailure,
        error.message@ == version_set_message(version@, detail@),
        fetch_failure(error),
{
    let mut message = String::from_str(VERSION_SET_FAILURE);
    message.append(version);
    message.append(VERSION_SET_FAILURE_SEPARATOR);
    message.append(detail);
    proof {
        assert(message@ =~= VERSION_SET_FAILURE@ + (version@ + VERSION_SET_FAILURE_SEPARATOR@
            + detail@));
        lemma_concat_starts_with(
            VERSION_SET_FAILURE@,
            version@ + VERSION_SET_FAILURE_SEPARATOR@ + detail@,
        );
    }
    Error::new(ErrorKind::InternalFailure, message)
}

/// The outcome of handing the read back to the requester: nothing to report
/// when it was handed over; otherwise the failure says whether a definition
/// or a read failure was lost.
pub fn reply_outcome(definition_found: bool, sent: bool) -> (outcome: Result<(), Error>)
    ensures
        outcome is Ok <==> sent,
        outcome matches Err(error) ==> error.kind == ErrorKind::InternalFailure && (if definition_found {
            error.message@ == DEFINITION_REPLY_FAILURE@
        } else {
            error.message@ == ERROR_REPLY_FAILURE@
        }),
        outcome matches Err(error) ==> fetch_failure(error),
{
    if sent {
        Ok(())
    } else if definition_found {
        Err(Error::new(ErrorKind::InternalFailure, String::from_str(DEFINITION_REPLY_FAILURE)))
    } else {
        Err(Error::new(ErrorKind::InternalFailure, String::from_str(ERROR_REPLY_FAILURE)))
    }
}

/// Where a fetch of the definition at a version stands.
pub enum FetchStage {
    /// The local copy of the repository is being made sure of.
    Downloading,
    /// The local copy is being checked out at the requested version.
    CheckingOut,
    /// The definition is being read from the local copy.
    Reading,
    /// The outcome of the read is being handed back to the requester.
    Replying { definition_found: bool },
    /// The fetch is over.
    Finished,
}

/// What a fetch asks to be done next.
pub enum FetchAction {
    /// Make sure of the local copy of the repository.
    Download,
    /// Check the local copy out at `version`.
    CheckOut { version: String },
    /// Read the definition from the local copy.
    Read,
    /// Hand this outcome of the read back to the requester.
    Reply(Result<cooplan_definitions_lib::definition::Definition, Error>),
    /// The fetch is over, with this outcome.
    Finish(Result<(), Error>),
}

/// What came of the step a fetch asked for.
pub enum FetchEvent {
    Downloaded(Result<(), String>),
    CheckedOut(Result<(), String>),
    DefinitionRead(Result<cooplan_definitions_lib::definition::Definition, Error>),
    Replied(bool),
}

/// The event a fetch waits for at each stage.
pub open spec fn fetch_accepts(stage: FetchStage, event: FetchEvent) -> bool {
    match event {
        FetchEvent::Downloaded(_) => stage is Downloading,
        FetchEvent::CheckedOut(_) => stage is CheckingOut,
        FetchEvent::DefinitionRead(_) => stage is Reading,
        FetchEvent::Replied(_) => stage is Replying,
    }
}

/// The fetch of the definition at one version, as a sequence of steps:
/// download, check out, read, reply; the first failing step ends it.
pub struct DefinitionFetch {
    version: String,
    stage: FetchStage,
    downloaded: Option<Downloaded>,
    checked_out: Option<CheckedOut>,
}

impl DefinitionFetch {
    /// The version the fetch is for.
    pub closed spec fn requested(&self) -> Seq<char> {
        self.version@
    }

    /// Where the fetch stands.
    pub closed spec fn stage(&self) -> FetchStage {
        self.stage
    }

    /// Whether the download of the local copy was done and succeeded.
    pub closed spec fn copy_made(&self) -> bool {
        self.downloaded is Some
    }

    /// The version the local copy was checked out at, once that check-out
    /// was done and succeeded.
    pub closed spec fn checked_out(&self) -> Option<Seq<char>> {
        match self.checked_out {
            Some(checked_out) => Some(checked_out.at()),
            None => None,
        }
    }

    /// A fetch of the definition at `version`; it first asks for the local
    /// copy of the repository.
    pub fn new(version: String) -> (started: (DefinitionFetch, FetchAction))
        ensures
            started.0.requested() == version@,
            started.0.stage() is Downloading,
            !started.0.copy_made(),
            started.0.checked_out() is None,
            started.1 is Download,
    {
        (
            DefinitionFetch {
                version,
                stage: FetchStage::Downloading,
                downloaded: None,
                checked_out: None,
            },
            FetchAction::Download,
        )
    }

    /// Decides the next step from what came of the last one.
    pub fn next(&mut self, event: FetchEvent) -> (action: FetchAction)
        requires
            fetch_accepts(old(self).stage(), event),
        ensures
            final(self).requested() == old(self).requested(),
            final(self).copy_made() == old(self).copy_made(),
            final(self).checked_out() == old(self).checked_out(),
            match event {
                FetchEvent::Downloaded(Ok(())) => {
                    &&& final(self).stage() is CheckingOut
                    &&& action matches FetchAction::CheckOut { version }
                    &&& version@ == old(self).requested()
                },
                FetchEvent::Downloaded(Err(detail)) => {
                    &&& final(self).stage() is Finished
                    &&& action matches FetchAction::Finish(Err(error))
                    &&& error.kind == ErrorKind::InternalFailure
                    &&& error.message@ == DOWNLOAD_FAILURE@ + detail@
                },
                FetchEvent::CheckedOut(Ok(())) => {
                    &&& final(self).stage() is Reading
                    &&& action is Read
                },
                FetchEvent::CheckedOut(Err(detail)) => {
                    &&& final(self).stage() is Finished
                    &&& action matches FetchAction::Finish(Err(error))
                    &&& error.kind == ErrorKind::InternalFailure
                    &&& error.message@ == version_set_message(old(self).requested(), detail@)
                },
                FetchEvent::DefinitionRead(read) => {
                    &&& final(self).stage() == (FetchStage::Replying {
                        definition_found: read is Ok,
                    })
                    &&& action == FetchAction::Reply(read)
                },
                FetchEvent::Replied(sent) => {
                    &&& final(self).stage() is Finished
                    &&& action matches FetchAction::Finish(outcome)
                    &&& (outcome is Ok <==> sent)
                    &&& outcome matches Err(error) ==> error.kind == ErrorKind::InternalFailure
                        && (if old(self).stage()->definition_found {
                        error.message@ == DEFINITION_REPLY_FAILURE@
                    } else {
                        error.message@ == ERROR_REPLY_FAILURE@
                    })
                },
            },
            action matches FetchAction::Finish(Err(error)) ==> fetch_failure(error),
    {
        match event {
            FetchEvent::Downloaded(Ok(())) => {
                self.stage = FetchStage::CheckingOut;
                FetchAction::CheckOut { version: self.version.clone() }
            },
            FetchEvent::Downloaded(Err(detail)) => {
                self.stage = FetchStage::Finished;
                FetchAction::Finish(Err(download_failure(detail.as_str())))
            },
            FetchEvent::CheckedOut(Ok(())) => {
                self.stage = FetchStage::Reading;
                FetchAction::Read
            },
            FetchEvent::CheckedOut(Err(detail)) => {
                self.stage = FetchStage::Finished;
                FetchAction::Finish(
                    Err(version_set_failure(self.version.as_str(), detail.as_str())),
                )
            },
            FetchEvent::DefinitionRead(read) => {
                self.stage = FetchStage::Replying { definition_found: read.is_ok() };
                FetchAction::Reply(read)
            },
            FetchEvent::Replied(sent) => {
                let definition_found = match self.stage {
                    FetchStage::Replying { definition_found } => definition_found,
                    _ => false,
                };
                self.stage = FetchStage::Finished;
                FetchAction::Finish(reply_outcome(definition_found, sent))
            },
        }
    }
}

/// How far a storage action could be carried out without reading a
/// definition.
pub enum StorageStep {
    /// The action is over, with this outcome.
    Done(Result<(), Error>),
    /// The local copy is at the requested version: the definition is to be
    /// read from it, and the outcome handed back through `fetch.reply`.
    ReadDefinition {
        fetch: DefinitionFetch,
        replier: tokio::sync::oneshot::Sender<
            Result<cooplan_definitions_lib::definition::Definition, Error>,
        >,
    },
}

impl DefinitionFetch {
    /// Hands the outcome of the read back to the requester and ends the fetch:
    /// nothing to report when it was handed over; otherwise the failure says
    /// whether a definition or a read failure was lost.
    pub fn reply(
        self,
        replier: tokio::sync::oneshot::Sender<
            Result<cooplan_definitions_lib::definition::Definition, Error>,
        >,
        read: Result<cooplan_definitions_lib::definition::Definition, Error>,
    ) -> (outcome: Result<(), Error>)
        requires
            self.stage() is Reading,
        ensures
            outcome matches Err(error) ==> error.kind == ErrorKind::InternalFailure && (if read
                is Ok {
                error.message@ == DEFINITION_REPLY_FAILURE@
            } else {
                error.message@ == ERROR_REPLY_FAILURE@
            }),
            outcome matches Err(error) ==> fetch_failure(error),
    {
        let mut fetch = self;
        let reply = match fetch.next(FetchEvent::DefinitionRead(read)) {
            FetchAction::Reply(reply) => reply,
            _ => {
                proof {
                    assert(false);
                }
                return Ok(());
            },
        };
        let sent = send_once(replier, reply);
        match fetch.next(FetchEvent::Replied(sent)) {
            FetchAction::Finish(outcome) => outcome,
            _ => {
                proof {
                    assert(false);
                }
                Ok(())
            },
        }
    }
}

/// Carries out a storage action on definitions as far as it goes without
/// reading a definition.
///
/// A request for a given version is fetched step by step as
/// `DefinitionFetch` decides: the local copy of the repository is made sure
/// of and checked out at the requested version; a failing step ends it with
/// an internal failure, and otherwise the definition is to be read and
/// handed back. A request for the latest definition is dropped as it is,
/// answer channel included: nothing is downloaded or read, and nothing is
/// reported.
pub fn execute(
    action: DefinitionStorageAction,
    git_downloader: &cooplan_definition_git_downloader::downloader::Downloader,
) -> (step: StorageStep)
    requires
        action is Get ==> usable_branch(downloader_branch(*git_downloader)),
    ensures
        match action {
            DefinitionStorageAction::GetLatest { .. } => step == StorageStep::Done(
                Ok::<(), Error>(()),
            ),
            DefinitionStorageAction::Get { version, replier } => fetch_begun(
                version@,
                replier,
                step,
            ),
        },
        action is Get ==> match step {
                StorageStep::ReadDefinition { fetch, replier: _ } => fetch.copy_made()
                    && fetch.checked_out() == Some(action->Get_version@),
                StorageStep::Done(outcome) => outcome matches Err(error) && (error.git_failure() matches Some(
                    (failed, detail),
                ) && if failed == GitStep::Download {
                    error.message@ == DOWNLOAD_FAILURE@ + detail
                } else {
                    error.message@ == VERSION_SET_FAILURE@ + action->Get_version@ + VERSION_SET_FAILURE_SEPARATOR@
                        + detail
                }),
            },
{
    match action {
        DefinitionStorageAction::Get { version, replier } => get(version, replier, git_downloader),
        DefinitionStorageAction::GetLatest { replier: _ } => StorageStep::Done(Ok(())),
    }
}

/// A failure of a fetch of `version` that comes from a failure Git reported,
/// told with the detail Git gave: a failed download as a download failure, a
/// failed check-out as the failure to check out that version.
pub open spec fn git_failure_told(version: Seq<char>, error: Error) -> bool {
    match error.git_failure() {
        Some((GitStep::Download, detail)) => error.message@ == DOWNLOAD_FAILURE@ + detail,
        Some((GitStep::CheckOut, detail)) => error.message@ == version_set_message(version, detail),
        None => false,
    }
}

/// Where a fetch of `version` stands once the local copy was made sure of
/// and checked out: ended by a download or check-out failure, or ready to
/// read the definition at that version and answer on `replier`.
pub open spec fn fetch_begun(
    version: Seq<char>,
    replier: tokio::sync::oneshot::Sender<
        Result<cooplan_definitions_lib::definition::Definition, Error>,
    >,
    step: StorageStep,
) -> bool {
    match step {
        StorageStep::Done(outcome) => outcome matches Err(error) && error.kind
            == ErrorKind::InternalFailure && (starts_with(error.message@, DOWNLOAD_FAILURE@)
            || starts_with(error.message@, VERSION_SET_FAILURE@ + version)) && git_failure_told(
            version,
            error,
        ),
        StorageStep::ReadDefinition { fetch, replier: answer } => {
            &&& fetch.requested() == version
            &&& fetch.stage() is Reading
            &&& fetch.copy_made()
            &&& fetch.checked_out() == Some(version)
            &&& answer == replier
        },
    }
}

fn get(
    version: String,
    replier: tokio::sync::oneshot::Sender<
        Result<cooplan_definitions_lib::definition::Definition, Error>,
    >,
    git_downloader: &cooplan_definition_git_downloader::downloader::Downloader,
) -> (step: StorageStep)
    requires
        usable_branch(downloader_branch(*git_downloader)),
    ensures
        fetch_begun(version@, replier, step),
        match step {
            StorageStep::ReadDefinition { fetch, replier: _ } => fetch.copy_made()
                && fetch.checked_out() == Some(version@),
            StorageStep::Done(outcome) => outcome matches Err(error) && (error.git_failure() matches Some(
                (failed, detail),
            ) && if failed == GitStep::Download {
                error.message@ == DOWNLOAD_FAILURE@ + detail
            } else {
                error.message@ == VERSION_SET_FAILURE@ + version@ + VERSION_SET_FAILURE_SEPARATOR@
                + detail
            }),
        },
{
    let ghost requested = version@;
    let (mut fetch, _download) = DefinitionFetch::new(version);
    let downloaded = match download(git_downloader) {
        Ok(downloaded) => downloaded,
        Err(failure) => {
            let detail = failure.detail().clone();
            return match fetch.next(FetchEvent::Downloaded(Err(detail))) {
                FetchAction::Finish(Err(error)) => {
                    proof {
                        lemma_concat_starts_with(DOWNLOAD_FAILURE@, failure.reported());
                    }
                    StorageStep::Done(Err(error.caused_by(failure)))
                },
                _ => {
                    proof {
                        assert(false);
                    }
                    StorageStep::Done(Ok(()))
                },
            };
        },
    };
    let version = match fetch.next(FetchEvent::Downloaded(Ok(()))) {
        FetchAction::CheckOut { version } => version,
        _ => {
            proof {
                assert(false);
            }
            return StorageStep::Done(Ok(()));
        },
    };
    fetch.downloaded = Some(downloaded);
    match check_out_version(git_downloader, version) {
        Ok(checked_out) => match fetch.next(FetchEvent::CheckedOut(Ok(()))) {
            FetchAction::Read => {
                fetch.checked_out = Some(checked_out);
                StorageStep::ReadDefinition { fetch, replier }
            },
            _ => {
                proof {
                    assert(false);
                }
                StorageStep::Done(Ok(()))
            },
        },
        Err(failure) => {
            let detail = failure.detail().clone();
            match fetch.next(FetchEvent::CheckedOut(Err(detail))) {
                FetchAction::Finish(Err(error)) => {
                    proof {
                        let told = failure.reported();
                        assert(version_set_message(requested, told) =~= (VERSION_SET_FAILURE@
                            + requested) + (VERSION_SET_FAILURE_SEPARATOR@ + told));
                        lemma_concat_starts_with(
                            VERSION_SET_FAILURE@ + requested,
                            VERSION_SET_FAILURE_SEPARATOR@ + told,
                        );
                    }
                    StorageStep::Done(Err(error.caused_by(failure)))
                },
                _ => {
                    proof {
                        assert(false);
                    }
                    StorageStep::Done(Ok(()))
                },
            }
        },
    }
}

} // verus!
