use crate::definitions::{
    definition_of, new_definition, validate_source_category, validation_of,
};
use crate::error::{Error, ErrorKind};
use crate::git::{read_version, DetectedVersion};
use crate::text::{lemma_concat_starts_with, message_with_detail, starts_with};
use vstd::prelude::*;
use vstd::string::*;

verus! {

/// How a failure to list or read a category file is reported.
pub const CATEGORY_READ_FAILURE: &'static str = "failed to read category: ";

/// How a category that fails its check is reported.
pub const CATEGORY_VALIDATION_FAILURE: &'static str = "failed to validate source category: ";

/// How a failure to read the definition's version is reported.
pub const VERSION_READ_FAILURE: &'static str = "failed to read definition's version: ";

/// The failures the reading of a definition can end in: an internal failure
/// whose message tells which step failed.
pub open spec fn read_failure(error: Error) -> bool {
    &&& error.kind == ErrorKind::InternalFailure
    &&& {
        ||| starts_with(error.message@, CATEGORY_READ_FAILURE@)
        ||| starts_with(error.message@, CATEGORY_VALIDATION_FAILURE@)
        ||| starts_with(error.message@, VERSION_READ_FAILURE@)
    }
}

/// The failure reported when the category files cannot be listed or one of
/// them cannot be read.
pub fn category_read_failure(detail: &str) -> (error: Error)
    ensures
        error.kind == ErrorKind::InternalFailure,
        error.message@ == CATEGORY_READ_FAILURE@ + detail@,
        read_failure(error),
{
    proof {
        lemma_concat_starts_with(CATEGORY_READ_FAILURE@, detail@);
    }
    Error::new(ErrorKind::InternalFailure, message_with_detail(CATEGORY_READ_FAILURE, detail))
}

/// Takes in the outcome of checking one category: a checked category joins
/// the others, after them; a failed check ends the reading with its message.
pub fn accept_validation(
    categories: &mut Vec<cooplan_definitions_lib::validated_source_category::ValidatedSourceCategory>,
    outcome: Result<cooplan_definitions_lib::validated_source_category::ValidatedSourceCategory, String>,
) -> (accepted: Result<(), Error>)
    ensures
        match outcome {
            Ok(category) => {
                &&& accepted is Ok
                &&& final(categories)@ == old(categories)@.push(category)
            },
            Err(detail) => {
                &&& accepted matches Err(error)
                &&& error.kind == ErrorKind::InternalFailure
                &&& error.message@ == CATEGORY_VALIDATION_FAILURE@ + detail@
                &&& final(categories)@ == old(categories)@
            },
        },
        accepted matches Err(error) ==> read_failure(error),
{
    match outcome {
        Ok(category) => {
            categories.push(category);
            Ok(())
        },
        Err(detail) => {
            proof {
                lemma_concat_starts_with(CATEGORY_VALIDATION_FAILURE@, detail@);
            }
            Err(
                Error::new(
                    ErrorKind::InternalFailure,
                    message_with_detail(CATEGORY_VALIDATION_FAILURE, detail.as_str()),
                ),
            )
        },
    }
}

/// Takes in what reading one category file gave: a failed read ends the
/// reading with its message; a category that was read is checked, and joins
/// the others, after them, or ends the reading with the message of its check.
pub fn take_category(
    categories: &mut Vec<cooplan_definitions_lib::validated_source_category::ValidatedSourceCategory>,
    read: Result<cooplan_definitions_lib::source_category::SourceCategory, String>,
) -> (taken: Result<(), Error>)
    ensures
        match read {
            Err(detail) => {
                &&& taken matches Err(error)
                &&& error.kind == ErrorKind::InternalFailure
                &&& error.message@ == CATEGORY_READ_FAILURE@ + detail@
                &&& final(categories)@ == old(categories)@
            },
            Ok(source) => match validation_of(source) {
                Ok(category) => {
                    &&& taken is Ok
                    &&& final(categories)@ == old(categories)@.push(category)
                },
                Err(message) => {
                    &&& taken matches Err(error)
                    &&& error.kind == ErrorKind::InternalFailure
                    &&& error.message@ == CATEGORY_VALIDATION_FAILURE@ + message
                    &&& final(categories)@ == old(categories)@
                },
            },
        },
        taken matches Err(error) ==> read_failure(error),
{
    match read {
        Err(detail) => Err(category_read_failure(detail.as_str())),
        Ok(source) => {
            let outcome = validate_source_category(source);
            accept_validation(categories, outcome)
        },
    }
}

/// Ends the reading once every category is in: with the version read from
/// the repository, the categories make the definition; without it, the
/// reading fails with the message of the version failure.
pub fn finish_definition(
    categories: Vec<cooplan_definitions_lib::validated_source_category::ValidatedSourceCategory>,
    version: Result<String, String>,
) -> (definition: Result<cooplan_definitions_lib::definition::Definition, Error>)
    ensures
        definition is Ok <==> version is Ok,
        version matches Ok(v) ==> definition == Ok::<
            cooplan_definitions_lib::definition::Definition,
            Error,
        >(definition_of(v@, categories@)),
        version matches Err(detail) ==> definition matches Err(error) && error.kind
            == ErrorKind::InternalFailure && error.message@ == VERSION_READ_FAILURE@ + detail@,
        definition matches Err(error) ==> read_failure(error),
{
    match version {
        Ok(version) => Ok(new_definition(version, categories)),
        Err(detail) => {
            proof {
                lemma_concat_starts_with(VERSION_READ_FAILURE@, detail@);
            }
            Err(
                Error::new(
                    ErrorKind::InternalFailure,
                    message_with_detail(VERSION_READ_FAILURE, detail.as_str()),
                ),
            )
        },
    }
}

/// The checked categories of `sources`, in their order.
pub open spec fn validated_all(
    sources: Seq<cooplan_definitions_lib::source_category::SourceCategory>,
) -> Seq<cooplan_definitions_lib::validated_source_category::ValidatedSourceCategory> {
    sources.map_values(
        |source: cooplan_definitions_lib::source_category::SourceCategory|
            validation_of(source)->Ok_0,
    )
}

/// Where the reading of a definition stands.
pub enum ReadingStage {
    /// Category files are being read, one after the other.
    Files,
    /// The version of the repository is being read.
    Version,
    /// The reading is over.
    Finished,
}

/// What came of the step the reading asked for.
pub enum ReadingEvent {
    /// The category file asked for was read, or could not be.
    FileRead(Result<cooplan_definitions_lib::source_category::SourceCategory, String>),
    /// The version of the repository was read, or could not be.
    VersionRead(Result<String, String>),
}

/// What the reading asks to be done next.
pub enum ReadingAction {
    /// Read the category file at `index` in the listing.
    ReadFile { index: usize },
    /// Read the version of the repository.
    ReadVersion,
    /// The reading is over, with this outcome.
    Finish(Result<cooplan_definitions_lib::definition::Definition, Error>),
}

/// The event the reading waits for at each stage.
pub open spec fn reading_accepts(stage: ReadingStage, event: ReadingEvent) -> bool {
    match event {
        ReadingEvent::FileRead(_) => stage is Files,
        ReadingEvent::VersionRead(_) => stage is Version,
    }
}

/// The reading of a definition, as a sequence of steps: every listed
/// category file, in listing order, each checked as it is read, then the
/// version; the first failure ends it.
pub struct DefinitionReading {
    total: usize,
    categories: Vec<cooplan_definitions_lib::validated_source_category::ValidatedSourceCategory>,
    sources: Ghost<Seq<cooplan_definitions_lib::source_category::SourceCategory>>,
    stage: ReadingStage,
    detected: Option<DetectedVersion>,
}

impl DefinitionReading {
    /// The number of category files the listing found.
    pub closed spec fn file_total(&self) -> nat {
        self.total as nat
    }

    /// The categories read so far, in listing order.
    pub closed spec fn sources(&self) -> Seq<cooplan_definitions_lib::source_category::SourceCategory> {
        self.sources@
    }

    /// Where the reading stands.
    pub closed spec fn stage(&self) -> ReadingStage {
        self.stage
    }

    /// The version this reading read from the repository, once it has.
    pub closed spec fn version_read(&self) -> Option<Seq<char>> {
        match self.detected {
            Some(detected) => Some(detected.read()),
            None => None,
        }
    }

    /// Every category read so far passed its check, and the checked ones are
    /// kept in listing order; while files are read, some are left, and once
    /// the version is read, every listed file has been.
    pub closed spec fn wf(&self) -> bool {
        &&& forall|i: int|
            0 <= i < self.sources@.len() ==> (#[trigger] validation_of(self.sources@[i])) is Ok
        &&& self.categories@ == validated_all(self.sources@)
        &&& self.stage is Files ==> self.sources@.len() < self.total
        &&& self.stage is Version ==> self.sources@.len() == self.total
    }

    /// Starts the reading from the outcome of listing the category files:
    /// their number, or the message of the failure. A failed listing ends the
    /// reading; otherwise the first file is read, or the version when no file
    /// was found.
    pub fn start(listing: Result<usize, String>) -> (started: (DefinitionReading, ReadingAction))
        ensures
            started.0.wf(),
            started.0.version_read() is None,
            started.0.sources() == Seq::<
                cooplan_definitions_lib::source_category::SourceCategory,
            >::empty(),
            match listing {
                Ok(total) => {
                    &&& started.0.file_total() == total
                    &&& if total == 0 {
                        started.0.stage() is Version && started.1 is ReadVersion
                    } else {
                        started.0.stage() is Files && started.1 == (ReadingAction::ReadFile {
                            index: 0,
                        })
                    }
                },
                Err(detail) => {
                    &&& started.0.stage() is Finished
                    &&& started.1 matches ReadingAction::Finish(Err(error))
                    &&& error.kind == ErrorKind::InternalFailure
                    &&& error.message@ == CATEGORY_READ_FAILURE@ + detail@
                },
            },
            started.1 matches ReadingAction::Finish(Err(error)) ==> read_failure(error),
    {
        match listing {
            Ok(total) => {
                let reading = DefinitionReading {
                    total,
                    categories: Vec::new(),
                    sources: Ghost(Seq::empty()),
                    detected: None,
                    stage: if total == 0 {
                        ReadingStage::Version
                    } else {
                        ReadingStage::Files
                    },
                };
                proof {
                    assert(reading.categories@ =~= validated_all(reading.sources@));
                }
                if total == 0 {
                    (reading, ReadingAction::ReadVersion)
                } else {
                    (reading, ReadingAction::ReadFile { index: 0 })
                }
            },
            Err(detail) => {
                let reading = DefinitionReading {
                    total: 0,
                    categories: Vec::new(),
                    sources: Ghost(Seq::empty()),
                    stage: ReadingStage::Finished,
                    detected: None,
                };
                proof {
                    assert(reading.categories@ =~= validated_all(reading.sources@));
                }
                (reading, ReadingAction::Finish(Err(category_read_failure(detail.as_str()))))
            },
        }
    }

    /// Decides the next step from what came of the last one.
    pub fn next(&mut self, event: ReadingEvent) -> (action: ReadingAction)
        requires
            old(self).wf(),
            reading_accepts(old(self).stage(), event),
        ensures
            final(self).wf(),
            final(self).file_total() == old(self).file_total(),
            final(self).version_read() == old(self).version_read(),
            match event {
                ReadingEvent::FileRead(Err(detail)) => {
                    &&& final(self).stage() is Finished
                    &&& action matches ReadingAction::Finish(Err(error))
                    &&& error.kind == ErrorKind::InternalFailure
                    &&& error.message@ == CATEGORY_READ_FAILURE@ + detail@
                },
                ReadingEvent::FileRead(Ok(source)) => match validation_of(source) {
                    Ok(_) => {
                        &&& final(self).sources() == old(self).sources().push(source)
                        &&& if final(self).sources().len() < old(self).file_total() {
                            &&& final(self).stage() is Files
                            &&& action == (ReadingAction::ReadFile {
                                index: final(self).sources().len() as usize,
                            })
                        } else {
                            final(self).stage() is Version && action is ReadVersion
                        }
                    },
                    Err(message) => {
                        &&& final(self).stage() is Finished
                        &&& action matches ReadingAction::Finish(Err(error))
                        &&& error.kind == ErrorKind::InternalFailure
                        &&& error.message@ == CATEGORY_VALIDATION_FAILURE@ + message
                    },
                },
                ReadingEvent::VersionRead(Ok(version)) => {
                    &&& final(self).stage() is Finished
                    &&& old(self).sources().len() == old(self).file_total()
                    &&& action == ReadingAction::Finish(
                        Ok(definition_of(version@, validated_all(old(self).sources()))),
                    )
                },
                ReadingEvent::VersionRead(Err(detail)) => {
                    &&& final(self).stage() is Finished
                    &&& action matches ReadingAction::Finish(Err(error))
                    &&& error.kind == ErrorKind::InternalFailure
                    &&& error.message@ == VERSION_READ_FAILURE@ + detail@
                },
            },
            action matches ReadingAction::Finish(Err(error)) ==> read_failure(error),
    {
        match event {
            ReadingEvent::FileRead(read) => {
                let ghost read_view = read;
                match take_category(&mut self.categories, read) {
                    Ok(()) => {
                        proof {
                            if let Ok(source) = read_view {
                                let old_sources = self.sources@;
                                self.sources@ = old_sources.push(source);
                                assert forall|i: int|
                                    0 <= i < self.sources@.len() implies (#[trigger] validation_of(
                                    self.sources@[i],
                                )) is Ok by {
                                    if i < old_sources.len() {
                                        assert(self.sources@[i] == old_sources[i]);
                                    }
                                }
                                assert(self.categories@ =~= validated_all(self.sources@));
                            }
                        }
                        let read_so_far = self.categories.len();
                        if read_so_far < self.total {
                            ReadingAction::ReadFile { index: read_so_far }
                        } else {
                            self.stage = ReadingStage::Version;
                            ReadingAction::ReadVersion
                        }
                    },
                    Err(error) => {
                        self.stage = ReadingStage::Finished;
                        ReadingAction::Finish(Err(error))
                    },
                }
            },
            ReadingEvent::VersionRead(version) => {
                let mut categories = Vec::new();
                std::mem::swap(&mut categories, &mut self.categories);
                self.sources = Ghost(Seq::empty());
                self.stage = ReadingStage::Finished;
                proof {
                    assert(self.categories@ =~= validated_all(self.sources@));
                }
                ReadingAction::Finish(finish_definition(categories, version))
            },
        }
    }

    /// Reads the version of the repository in the directory of `reader`, once
    /// every listed file is in, and ends the reading: with the version, the
    /// checked categories of every listed file, in listing order, make the
    /// definition; without it, the reading fails with the version failure.
    pub fn read_version(&mut self, reader: &DefinitionFileReader) -> (action: ReadingAction)
        requires
            old(self).wf(),
            old(self).stage() is Version,
        ensures
            final(self).wf(),
            final(self).stage() is Finished,
            action is Finish,
            action matches ReadingAction::Finish(Ok(made)) ==> old(self).sources().len()
                == old(self).file_total() && exists|version: Seq<char>|
                made == #[trigger] definition_of(version, validated_all(old(self).sources())),
            action matches ReadingAction::Finish(Ok(made)) ==> final(self).version_read() matches Some(
                version,
            ) && made == definition_of(version, validated_all(old(self).sources())),
            action matches ReadingAction::Finish(Err(error)) ==> error.kind
                == ErrorKind::InternalFailure && starts_with(error.message@, VERSION_READ_FAILURE@),
    {
        match read_version(reader) {
            Ok(detected) => {
                let version = detected.text().clone();
                let action = self.next(ReadingEvent::VersionRead(Ok(version)));
                self.detected = Some(detected);
                action
            },
            Err(detail) => {
                let ghost told = detail@;
                let action = self.next(ReadingEvent::VersionRead(Err(detail)));
                proof {
                    lemma_concat_starts_with(VERSION_READ_FAILURE@, told);
                }
                action
            },
        }
    }
}

/// Where a definition is read from: a local copy of the definitions
/// repository.
pub struct DefinitionFileReader {
    pub(crate) path: String,
}

impl DefinitionFileReader {
    /// The directory the definition is read from.
    pub closed spec fn location(&self) -> Seq<char> {
        self.path@
    }

    pub fn new(path: String) -> (reader: DefinitionFileReader)
        ensures
            reader.location() == path@,
    {
        DefinitionFileReader { path }
    }

    pub fn path(&self) -> (path: &String)
        ensures
            path@ == self.location(),
    {
        &self.path
    }
}

} // verus!
