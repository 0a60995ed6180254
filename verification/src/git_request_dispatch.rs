use crate::definition_executor::{
    execute, fetch_begun, StorageStep, DOWNLOAD_FAILURE, VERSION_SET_FAILURE,
    VERSION_SET_FAILURE_SEPARATOR,
};
use crate::definition_file_reader::DefinitionFileReader;
use crate::error::Error;
use crate::git::{
    downloader_branch, downloader_dir, downloader_fields, downloader_for, git_config_fields,
    usable_branch, GitStep,
};
use crate::storage_request::{DefinitionStorageAction, StorageRequest};
use crate::text::{append_decimal, decimal, lemma_decimal_injective};
use vstd::prelude::*;
use vstd::string::*;

verus! {

/// Where the local copy of the repository of a dispatcher lives: `./` and
/// the dispatcher's id.
pub open spec fn repository_dir_of(id: u32) -> Seq<char> {
    "./"@ + decimal(id as nat)
}

/// The directory of the local copy of the repository of dispatcher `id`.
pub fn repository_dir(id: u32) -> (dir: String)
    ensures
        dir@ == repository_dir_of(id),
{
    let mut dir = String::from_str("./");
    append_decimal(&mut dir, id);
    dir
}

/// The ids of `concurrent_dispatchers` dispatchers: `0` up to one less than
/// their number, in that order.
pub fn dispatcher_ids(concurrent_dispatchers: u16) -> (ids: Vec<u32>)
    ensures
        ids@.len() == concurrent_dispatchers,
        forall|i: int| 0 <= i < ids@.len() ==> ids@[i] == i,
{
    let mut ids: Vec<u32> = Vec::new();
    let mut id: u16 = 0;
    while id < concurrent_dispatchers
        invariant
            id <= concurrent_dispatchers,
            ids@.len() == id,
            forall|i: int| 0 <= i < ids@.len() ==> ids@[i] == i,
        decreases concurrent_dispatchers - id,
    {
        ids.push(id as u32);
        id = id + 1;
    }
    ids
}

/// Dispatchers with different ids are given different repository
/// directories. `GitRequestDispatch::new` hands a dispatcher's directory both
/// to its downloader, which checks versions out there, and to its reader, so
/// two dispatchers never check out or read in each other's copy.
pub proof fn lemma_repository_dirs_distinct(a: u32, b: u32)
    requires
        a != b,
    ensures
        repository_dir_of(a) != repository_dir_of(b),
{
    if repository_dir_of(a) == repository_dir_of(b) {
        let prefix = "./"@;
        assert(decimal(a as nat) =~= repository_dir_of(a).subrange(
            prefix.len() as int,
            repository_dir_of(a).len() as int,
        ));
        assert(decimal(b as nat) =~= repository_dir_of(b).subrange(
            prefix.len() as int,
            repository_dir_of(b).len() as int,
        ));
        lemma_decimal_injective(a as nat, b as nat);
    }
}

/// Serves storage requests with a local copy of the repository of its own.
pub struct GitRequestDispatch {
    git_downloader: cooplan_definition_git_downloader::downloader::Downloader,
    definition_file_reader: DefinitionFileReader,
    request_receiver: async_channel::Receiver<StorageRequest>,
}

impl GitRequestDispatch {
    /// The reader of the definitions of this dispatcher.
    pub closed spec fn reader(&self) -> DefinitionFileReader {
        self.definition_file_reader
    }

    /// The downloader of this dispatcher.
    pub closed spec fn downloader(&self) -> cooplan_definition_git_downloader::downloader::Downloader {
        self.git_downloader
    }

    /// Where the requests this dispatcher serves come from.
    pub closed spec fn requests(&self) -> async_channel::Receiver<StorageRequest> {
        self.request_receiver
    }

    /// A dispatcher whose local copy of the repository, and the directory it
    /// reads definitions from, is `./` and its id.
    pub fn new(
        id: u32,
        git_config: cooplan_definition_git_downloader::git_config::GitConfig,
        request_receiver: async_channel::Receiver<StorageRequest>,
    ) -> (dispatch: GitRequestDispatch)
        ensures
            dispatch.reader().location() == repository_dir_of(id),
            downloader_fields(dispatch.downloader()) == (
                git_config_fields(git_config).0,
                repository_dir_of(id),
                git_config_fields(git_config).2,
                git_config_fields(git_config).3,
            ),
            dispatch.requests() == request_receiver,
    {
        let repository_dir = repository_dir(id);
        let git_downloader = downloader_for(git_config, repository_dir.clone());
        let definition_file_reader = DefinitionFileReader::new(repository_dir);
        GitRequestDispatch { git_downloader, definition_file_reader, request_receiver }
    }

    pub fn definition_file_reader(&self) -> (reader: &DefinitionFileReader)
        ensures
            *reader == self.reader(),
    {
        &self.definition_file_reader
    }

    /// Where the requests this dispatcher serves come from.
    pub fn request_receiver(&self) -> (receiver: &async_channel::Receiver<StorageRequest>)
        ensures
            *receiver == self.requests(),
    {
        &self.request_receiver
    }

    /// Serves one storage request as far as it goes without reading a
    /// definition; see `execute`.
    pub fn serve(&self, request: StorageRequest) -> (step: StorageStep)
        requires
            request->DefinitionRequest_0 is Get ==> usable_branch(
                downloader_branch(self.downloader()),
            ),
        ensures
            match request {
                StorageRequest::DefinitionRequest(DefinitionStorageAction::GetLatest { .. }) => step
                    == StorageStep::Done(Ok::<(), Error>(())),
                StorageRequest::DefinitionRequest(
                    DefinitionStorageAction::Get { version, replier },
                ) => fetch_begun(version@, replier, step),
            },
            request->DefinitionRequest_0 is Get ==> match step {
                StorageStep::ReadDefinition { fetch, replier: _ } => fetch.copy_made()
                    && fetch.checked_out() == Some(request->DefinitionRequest_0->Get_version@),
                StorageStep::Done(outcome) => outcome matches Err(error) && (
                error.git_failure() matches Some((failed, detail)) && if failed
                    == GitStep::Download {
                    error.message@ == DOWNLOAD_FAILURE@ + detail
                } else {
                    error.message@ == VERSION_SET_FAILURE@
                        + request->DefinitionRequest_0->Get_version@
                        + VERSION_SET_FAILURE_SEPARATOR@ + detail
                }),
            },
    {
        match request {
            StorageRequest::DefinitionRequest(action) => execute(action, &self.git_downloader),
        }
    }
}

/// Two dispatchers made with different ids, as `GitRequestDispatch::new`
/// makes them, check versions out and read definitions in different
/// directories.
pub proof fn lemma_dispatchers_apart(
    first: GitRequestDispatch,
    first_id: u32,
    second: GitRequestDispatch,
    second_id: u32,
)
    requires
        first_id != second_id,
        first.reader().location() == repository_dir_of(first_id),
        downloader_dir(first.downloader()) == repository_dir_of(first_id),
        second.reader().location() == repository_dir_of(second_id),
        downloader_dir(second.downloader()) == repository_dir_of(second_id),
    ensures
        downloader_dir(first.downloader()) != downloader_dir(second.downloader()),
        first.reader().location() != second.reader().location(),
{
    lemma_repository_dirs_distinct(first_id, second_id);
}

} // verus!
