//! The index cache: the package index is read from the destination directory
//! when it is there, and fetched and stored there when it is not.
//!
//! The flow decides and the driver acts. [`IndexFlow::request`] says what the
//! driver has to do next, and the driver reports the outcome with the method
//! that belongs to the request. A report that does not belong to the pending
//! request changes nothing.

use crate::error::MirrorError;
use crate::layout::{index_cache_path, index_cache_path_of, index_url, index_url_of};
use crate::world::World;
use vstd::prelude::*;

verus! {

/// The view of a text that may be absent.
pub open spec fn text_model(text: Option<String>) -> Option<Seq<char>> {
    match text {
        Some(text) => Some(text@),
        None => None,
    }
}

/// The view of the outcome of an index retrieval.
pub open spec fn outcome_model(outcome: Result<String, MirrorError>) -> Result<
    Seq<char>,
    MirrorError,
> {
    match outcome {
        Ok(text) => Ok(text@),
        Err(e) => Err(e),
    }
}

/// How far an index retrieval has come.
#[derive(Debug)]
pub enum IndexStage {
    /// The cache file is being read.
    Probing,
    /// The index is being fetched from the repository.
    Fetching,
    /// The fetched index is being written to the cache file.
    Storing { body: String },
    /// The retrieval is over.
    Finished { outcome: Result<String, MirrorError> },
}

/// [`IndexStage`] as a mathematical value.
pub enum IndexStageModel {
    Probing,
    Fetching,
    Storing { body: Seq<char> },
    Finished { outcome: Result<Seq<char>, MirrorError> },
}

impl View for IndexStage {
    type V = IndexStageModel;

    open spec fn view(&self) -> IndexStageModel {
        match self {
            IndexStage::Probing => IndexStageModel::Probing,
            IndexStage::Fetching => IndexStageModel::Fetching,
            IndexStage::Storing { body } => IndexStageModel::Storing { body: body@ },
            IndexStage::Finished { outcome } => IndexStageModel::Finished {
                outcome: outcome_model(*outcome),
            },
        }
    }
}

/// What the driver of an index retrieval has to do next.
#[derive(Debug)]
pub enum IndexRequest<'a> {
    /// Read the file at `path` as text.
    ReadCache { path: String },
    /// Fetch the body of `url` as text.
    FetchIndex { url: String },
    /// Write `body` to the file at `path`.
    WriteCache { path: String, body: &'a str },
    /// Nothing: the retrieval is over.
    Nothing,
}

/// [`IndexRequest`] as a mathematical value.
pub enum IndexRequestModel {
    ReadCache { path: Seq<char> },
    FetchIndex { url: Seq<char> },
    WriteCache { path: Seq<char>, body: Seq<char> },
    Nothing,
}

impl<'a> View for IndexRequest<'a> {
    type V = IndexRequestModel;

    open spec fn view(&self) -> IndexRequestModel {
        match self {
            IndexRequest::ReadCache { path } => IndexRequestModel::ReadCache { path: path@ },
            IndexRequest::FetchIndex { url } => IndexRequestModel::FetchIndex { url: url@ },
            IndexRequest::WriteCache { path, body } => IndexRequestModel::WriteCache {
                path: path@,
                body: body@,
            },
            IndexRequest::Nothing => IndexRequestModel::Nothing,
        }
    }
}

/// The retrieval of the package index of one repository into one
/// destination directory.
#[derive(Debug)]
pub struct IndexFlow {
    repo_url: String,
    dest_dir: String,
    stage: IndexStage,
}

/// [`IndexFlow`] as a mathematical value.
pub struct IndexFlowModel {
    pub repo_url: Seq<char>,
    pub dest_dir: Seq<char>,
    pub stage: IndexStageModel,
}

impl IndexFlowModel {
    /// A retrieval that has not asked for anything yet.
    pub open spec fn start(repo_url: Seq<char>, dest_dir: Seq<char>) -> IndexFlowModel {
        IndexFlowModel { repo_url, dest_dir, stage: IndexStageModel::Probing }
    }

    /// What the driver has to do next.
    pub open spec fn request(self) -> IndexRequestModel {
        match self.stage {
            IndexStageModel::Probing => IndexRequestModel::ReadCache {
                path: index_cache_path_of(self.dest_dir),
            },
            IndexStageModel::Fetching => IndexRequestModel::FetchIndex {
                url: index_url_of(self.repo_url),
            },
            IndexStageModel::Storing { body } => IndexRequestModel::WriteCache {
                path: index_cache_path_of(self.dest_dir),
                body,
            },
            IndexStageModel::Finished { .. } => IndexRequestModel::Nothing,
        }
    }

    /// The retrieval at `stage`.
    pub open spec fn at(self, stage: IndexStageModel) -> IndexFlowModel {
        IndexFlowModel { stage, ..self }
    }

    /// After the cache file was read: what it holds is the index, and a file
    /// that could not be read sends the retrieval to the repository.
    pub open spec fn after_read(self, cached: Option<Seq<char>>) -> IndexFlowModel {
        match (self.stage, cached) {
            (IndexStageModel::Probing, Some(content)) => self.at(
                IndexStageModel::Finished { outcome: Ok(content) },
            ),
            (IndexStageModel::Probing, None) => self.at(IndexStageModel::Fetching),
            _ => self,
        }
    }

    /// After the fetch: a body is to be stored, and a failed fetch ends the
    /// retrieval.
    pub open spec fn after_fetch(self, fetched: Option<Seq<char>>) -> IndexFlowModel {
        match (self.stage, fetched) {
            (IndexStageModel::Fetching, Some(body)) => self.at(IndexStageModel::Storing { body }),
            (IndexStageModel::Fetching, None) => self.at(
                IndexStageModel::Finished { outcome: Err(MirrorError::Fetch) },
            ),
            _ => self,
        }
    }

    /// After the write: the stored body is the index, and a failed write
    /// ends the retrieval.
    pub open spec fn after_store(self, written: bool) -> IndexFlowModel {
        match self.stage {
            IndexStageModel::Storing { body } => if written {
                self.at(IndexStageModel::Finished { outcome: Ok(body) })
            } else {
                self.at(IndexStageModel::Finished { outcome: Err(MirrorError::Persist) })
            },
            _ => self,
        }
    }

    /// The outcome, once the retrieval is over.
    pub open spec fn outcome(self) -> Option<Result<Seq<char>, MirrorError>> {
        match self.stage {
            IndexStageModel::Finished { outcome } => Some(outcome),
            _ => None,
        }
    }

    /// The retrieval and its surroundings after a faithful driver has done
    /// what the retrieval asks for and reported it.
    pub open spec fn served(self, world: World<Seq<char>>) -> (IndexFlowModel, World<Seq<char>>) {
        match self.request() {
            IndexRequestModel::ReadCache { path } => (self.after_read(world.read(path)), world),
            IndexRequestModel::FetchIndex { url } => (
                self.after_fetch(world.response(url)),
                world.after_request(url),
            ),
            IndexRequestModel::WriteCache { path, body } => (
                self.after_store(world.writable(path)),
                world.after_write(path, body),
            ),
            IndexRequestModel::Nothing => (self, world),
        }
    }
}

/// A whole retrieval by a faithful driver: the retrieval and its
/// surroundings after three requests were served, which is as many as a
/// retrieval makes.
pub open spec fn index_run(repo_url: Seq<char>, dest_dir: Seq<char>, world: World<Seq<char>>) -> (
    IndexFlowModel,
    World<Seq<char>>,
) {
    let first = IndexFlowModel::start(repo_url, dest_dir).served(world);
    let second = first.0.served(first.1);
    second.0.served(second.1)
}

impl View for IndexFlow {
    type V = IndexFlowModel;

    closed spec fn view(&self) -> IndexFlowModel {
        IndexFlowModel { repo_url: self.repo_url@, dest_dir: self.dest_dir@, stage: self.stage@ }
    }
}

impl IndexFlow {
    /// A retrieval of the index of the repository at `repo_url` into
    /// `dest_dir`.
    pub fn new(repo_url: &str, dest_dir: &str) -> (flow: IndexFlow)
        ensures
            flow@ == IndexFlowModel::start(repo_url@, dest_dir@),
    {
        IndexFlow {
            repo_url: repo_url.to_owned(),
            dest_dir: dest_dir.to_owned(),
            stage: IndexStage::Probing,
        }
    }

    /// What the driver has to do next.
    pub fn request(&self) -> (request: IndexRequest<'_>)
        ensures
            request@ == self@.request(),
    {
        match &self.stage {
            IndexStage::Probing => IndexRequest::ReadCache {
                path: index_cache_path(self.dest_dir.as_str()),
            },
            IndexStage::Fetching => IndexRequest::FetchIndex {
                url: index_url(self.repo_url.as_str()),
            },
            IndexStage::Storing { body } => IndexRequest::WriteCache {
                path: index_cache_path(self.dest_dir.as_str()),
                body: body.as_str(),
            },
            IndexStage::Finished { .. } => IndexRequest::Nothing,
        }
    }

    /// Reports what reading the cache file gave: its content, or `None`
    /// where it could not be read.
    pub fn cache_read(self, cached: Option<String>) -> (next: IndexFlow)
        ensures
            next@ == self@.after_read(text_model(cached)),
    {
        let IndexFlow { repo_url, dest_dir, stage } = self;
        let stage = match stage {
            IndexStage::Probing => match cached {
                Some(content) => IndexStage::Finished { outcome: Ok(content) },
                None => IndexStage::Fetching,
            },
            other => other,
        };
        IndexFlow { repo_url, dest_dir, stage }
    }

    /// Reports what fetching the index gave: its body, or `None` where the
    /// request did not end in a successful response.
    pub fn fetched(self, body: Option<String>) -> (next: IndexFlow)
        ensures
            next@ == self@.after_fetch(text_model(body)),
    {
        let IndexFlow { repo_url, dest_dir, stage } = self;
        let stage = match stage {
            IndexStage::Fetching => match body {
                Some(body) => IndexStage::Storing { body },
                None => IndexStage::Finished { outcome: Err(MirrorError::Fetch) },
            },
            other => other,
        };
        IndexFlow { repo_url, dest_dir, stage }
    }

    /// Reports whether the cache file was written.
    pub fn stored(self, written: bool) -> (next: IndexFlow)
        ensures
            next@ == self@.after_store(written),
    {
        let IndexFlow { repo_url, dest_dir, stage } = self;
        let stage = match stage {
            IndexStage::Storing { body } => if written {
                IndexStage::Finished { outcome: Ok(body) }
            } else {
                IndexStage::Finished { outcome: Err(MirrorError::Persist) }
            },
            other => other,
        };
        IndexFlow { repo_url, dest_dir, stage }
    }

    /// The index or the failure, once the retrieval is over; `Err` with the
    /// retrieval itself while it is not.
    pub fn finish(self) -> (end: Result<Result<String, MirrorError>, IndexFlow>)
        ensures
            match end {
                Ok(outcome) => self@.outcome() == Some(outcome_model(outcome)),
                Err(flow) => self@.outcome() is None && flow@ == self@,
            },
    {
        let IndexFlow { repo_url, dest_dir, stage } = self;
        match stage {
            IndexStage::Finished { outcome } => Ok(outcome),
            other => Err(IndexFlow { repo_url, dest_dir, stage: other }),
        }
    }
}

/// A faithful driver brings every retrieval to its end.
pub proof fn law_index_run_ends(repo_url: Seq<char>, dest_dir: Seq<char>, world: World<Seq<char>>)
    ensures
        index_run(repo_url, dest_dir, world).0.outcome() is Some,
{
}

/// A retrieval that finds the cache file returns what the file holds, asks
/// the repository for nothing and changes nothing.
pub proof fn law_cached_index_is_returned(
    repo_url: Seq<char>,
    dest_dir: Seq<char>,
    world: World<Seq<char>>,
)
    requires
        world.present(index_cache_path_of(dest_dir)),
    ensures
        index_run(repo_url, dest_dir, world).0.outcome() == Some(
            Ok::<Seq<char>, MirrorError>(world.files[index_cache_path_of(dest_dir)]),
        ),
        index_run(repo_url, dest_dir, world).1 == world,
{
}

/// Two retrievals in a row into one destination directory, the first of
/// them successful: the repository is asked at most once, and only by the
/// first; the second returns what the first returned and changes nothing.
pub proof fn law_index_is_fetched_once(
    repo_url: Seq<char>,
    dest_dir: Seq<char>,
    world: World<Seq<char>>,
)
    requires
        index_run(repo_url, dest_dir, world).0.outcome() matches Some(Ok(_)),
    ensures
        ({
            let first = index_run(repo_url, dest_dir, world);
            let second = index_run(repo_url, dest_dir, first.1);
            &&& second.0.outcome() == first.0.outcome()
            &&& second.1 == first.1
            &&& first.1.requested == if world.present(index_cache_path_of(dest_dir)) {
                world.requested
            } else {
                world.requested.push(index_url_of(repo_url))
            }
        }),
{
}

/// A retrieval that finds no cache file requests the index once. It
/// succeeds exactly if that request succeeds and the cache file can be
/// written; it then returns the response, and the cache file holds it. A
/// failed retrieval leaves every file as it was.
pub proof fn law_missing_index_is_fetched(
    repo_url: Seq<char>,
    dest_dir: Seq<char>,
    world: World<Seq<char>>,
)
    requires
        !world.present(index_cache_path_of(dest_dir)),
    ensures
        ({
            let path = index_cache_path_of(dest_dir);
            let url = index_url_of(repo_url);
            let end = index_run(repo_url, dest_dir, world);
            &&& end.1.requested == world.requested.push(url)
            &&& end.0.outcome() == Some(
                if world.response(url) is None {
                    Err::<Seq<char>, MirrorError>(MirrorError::Fetch)
                } else if !world.writable(path) {
                    Err(MirrorError::Persist)
                } else {
                    Ok(world.remote[url])
                },
            )
            &&& end.0.outcome() matches Some(Ok(body)) ==> end.1.files == world.files.insert(
                path,
                body,
            )
            &&& end.0.outcome() matches Some(Err(_)) ==> end.1.files == world.files
        }),
{
}

} // verus!
