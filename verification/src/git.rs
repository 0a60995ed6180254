use crate::definition_file_reader::DefinitionFileReader;
use vstd::prelude::*;
use vstd::string::*;

verus! {

/// Where the definitions repository is and which remote branch to follow.
#[verifier::external_type_specification]
#[verifier::external_body]
pub struct ExGitConfig(cooplan_definition_git_downloader::git_config::GitConfig);

/// Keeps a local copy of the definitions repository.
#[verifier::external_type_specification]
#[verifier::external_body]
pub struct ExDownloader(cooplan_definition_git_downloader::downloader::Downloader);

/// What a Git configuration holds: the repository's URL, the local
/// directory, the remote's name and the remote branch, in that order.
pub uninterp spec fn git_config_fields(
    config: cooplan_definition_git_downloader::git_config::GitConfig,
) -> (Seq<char>, Seq<char>, Seq<char>, Seq<char>);

/// What a downloader holds: the repository's URL, the local directory, the
/// remote's name and the remote branch, in that order.
pub uninterp spec fn downloader_fields(
    downloader: cooplan_definition_git_downloader::downloader::Downloader,
) -> (Seq<char>, Seq<char>, Seq<char>, Seq<char>);

/// The directory in which a downloader keeps its local copy of the repository.
pub open spec fn downloader_dir(
    downloader: cooplan_definition_git_downloader::downloader::Downloader,
) -> Seq<char> {
    downloader_fields(downloader).1
}

/// The remote branch a downloader checks out when it clones.
pub open spec fn downloader_branch(
    downloader: cooplan_definition_git_downloader::downloader::Downloader,
) -> Seq<char> {
    downloader_fields(downloader).3
}

/// A branch name the clone can be asked for: it holds no NUL character.
pub open spec fn usable_branch(branch: Seq<char>) -> bool {
    !branch.contains('\0')
}

/// The remote branch of a Git configuration.
///
/// Reads the configuration's `remote_branch` field.
#[verifier::external_body]
pub(crate) fn remote_branch(
    config: &cooplan_definition_git_downloader::git_config::GitConfig,
) -> (branch: String)
    ensures
        branch@ == git_config_fields(*config).3,
{
    config.remote_branch.clone()
}

/// Whether the remote branch of `config` can be asked for when cloning: the
/// clone panics on a branch name that holds a NUL character.
pub fn branch_is_usable(config: &cooplan_definition_git_downloader::git_config::GitConfig) -> (usable:
    bool)
    ensures
        usable == usable_branch(git_config_fields(*config).3),
{
    let branch = remote_branch(config);
    let text = branch.as_str();
    let length = text.unicode_len();
    let mut index: usize = 0;
    while index < length
        invariant
            length == text@.len(),
            text@ == git_config_fields(*config).3,
            index <= length,
            forall|j: int| 0 <= j < index ==> text@[j] != '\0',
        decreases length - index,
    {
        if text.get_char(index) == '\0' {
            proof {
                assert(text@.contains('\0'));
            }
            return false;
        }
        index = index + 1;
    }
    true
}

/// Makes a downloader for the repository of `config`, kept in `local_dir`.
///
/// Sets the configuration's local directory and calls `Downloader::new`,
/// which only stores the configuration: the downloader keeps the URL, the
/// remote's name and the branch of `config`, and its copy in `local_dir`.
#[verifier::external_body]
pub(crate) fn downloader_for(
    config: cooplan_definition_git_downloader::git_config::GitConfig,
    local_dir: String,
) -> (downloader: cooplan_definition_git_downloader::downloader::Downloader)
    ensures
        downloader_fields(downloader) == (
            git_config_fields(config).0,
            local_dir@,
            git_config_fields(config).2,
            git_config_fields(config).3,
        ),
{
    let mut config = config;
    config.repository_local_dir = local_dir;
    cooplan_definition_git_downloader::downloader::Downloader::new(config)
}

/// The step of the repository's upkeep a Git failure came from.
#[derive(Clone, Copy, Debug, PartialEq, Eq, Structural)]
pub enum GitStep {
    /// Making sure of the local copy (opening or cloning it).
    Download,
    /// Checking the local copy out at a version.
    CheckOut,
}

/// A failure reported by Git: the step that failed and the detail Git gave.
/// Only the calls into the downloader make one, so a value of it stands for
/// a failure that really was reported.
#[derive(Debug)]
pub struct GitFailure {
    step: GitStep,
    detail: String,
}

impl GitFailure {
    /// The step that failed.
    pub closed spec fn failed_step(&self) -> GitStep {
        self.step
    }

    /// The detail Git gave.
    pub closed spec fn reported(&self) -> Seq<char> {
        self.detail@
    }

    pub fn step(&self) -> (step: GitStep)
        ensures
            step == self.failed_step(),
    {
        self.step
    }

    pub fn detail(&self) -> (detail: &String)
        ensures
            detail@ == self.reported(),
    {
        &self.detail
    }
}

/// The mark that the local copy of the repository was made sure of. Only a
/// successful download makes one.
pub struct Downloaded {
    copy: (),
}

/// The mark that the local copy was checked out at a version. Only a
/// successful check-out makes one.
pub struct CheckedOut {
    version: String,
}

impl CheckedOut {
    /// The version the local copy was checked out at.
    pub closed spec fn at(&self) -> Seq<char> {
        self.version@
    }
}

/// The version a local copy of the repository was found at. Only reading
/// it from the repository makes one.
pub struct DetectedVersion {
    text: String,
}

impl DetectedVersion {
    /// The version read, a commit hash.
    pub closed spec fn read(&self) -> Seq<char> {
        self.text@
    }

    pub fn text(&self) -> (text: &String)
        ensures
            text@ == self.read(),
    {
        &self.text
    }
}

/// Makes sure the local copy of the repository exists.
///
/// Calls `Downloader::download`, which opens the local copy or clones it;
/// the outcome depends on the disk and the network, so nothing is promised
/// of whether it succeeds. A failure comes back with the detail Git gave,
/// marked as a download failure. The clone panics on a branch name holding a
/// NUL character, which the requirement rules out.
#[verifier::external_body]
pub(crate) fn download(
    downloader: &cooplan_definition_git_downloader::downloader::Downloader,
) -> (outcome: Result<Downloaded, GitFailure>)
    requires
        usable_branch(downloader_branch(*downloader)),
    ensures
        outcome matches Err(failure) ==> failure.failed_step() == GitStep::Download,
{
    match downloader.download() {
        Ok(()) => Ok(Downloaded { copy: () }),
        Err(error) => Err(GitFailure { step: GitStep::Download, detail: error.to_string() }),
    }
}

/// Checks the local copy out at `version`, a commit hash.
///
/// Calls `Downloader::set_version`, which clones the repository first when
/// there is no local copy; the outcome depends on the repository on disk, so
/// nothing is promised of whether it succeeds. A success is marked with the
/// version asked for; a failure comes back with the detail Git gave, marked
/// as a check-out failure. The clone panics on a branch name holding a NUL
/// character, which the requirement rules out.
#[verifier::external_body]
pub(crate) fn check_out_version(
    downloader: &cooplan_definition_git_downloader::downloader::Downloader,
    version: String,
) -> (outcome: Result<CheckedOut, GitFailure>)
    requires
        usable_branch(downloader_branch(*downloader)),
    ensures
        outcome matches Ok(checked_out) ==> checked_out.at() == version@,
        outcome matches Err(failure) ==> failure.failed_step() == GitStep::CheckOut,
{
    let asked = version.clone();
    match downloader.set_version(version) {
        Ok(()) => Ok(CheckedOut { version: asked }),
        Err(error) => Err(GitFailure { step: GitStep::CheckOut, detail: error.to_string() }),
    }
}

/// Reads the version (the commit hash) the local copy in the directory of
/// `reader` is at.
///
/// Calls `VersionDetector::read_version` on a detector for the reader's
/// directory (its `location`); the outcome depends on the repository on disk,
/// so nothing is promised of it. The version read comes back as it was read;
/// a failure comes back as its message.
#[verifier::external_body]
pub(crate) fn read_version(reader: &DefinitionFileReader) -> (outcome: Result<
    DetectedVersion,
    String,
>) {
    let detector = cooplan_definition_git_downloader::version_detector::VersionDetector::new(
        reader.path.clone(),
    );
    match detector.read_version() {
        Ok(version) => Ok(DetectedVersion { text: version }),
        Err(error) => Err(error.to_string()),
    }
}

} // verus!
