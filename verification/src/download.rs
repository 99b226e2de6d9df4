//! The download of one file: skipped when something already stands at its
//! place in the destination directory, fetched and written otherwise.
//!
//! As with the index, the flow decides and the driver acts:
//! [`DownloadFlow::request`] says what to do next, and the driver reports the
//! outcome with the method that belongs to the request. A report that does
//! not belong to the pending request changes nothing.

use crate::enumerate::{FileDescriptor, FileModel};
use crate::error::MirrorError;
use crate::layout::{download_path, download_path_of};
use crate::world::World;
use vstd::prelude::*;

verus! {

/// How a download ended well.
#[derive(Clone, Copy, Debug, PartialEq, Eq, Structural)]
pub enum Downloaded {
    /// Something already stood at the file's place; nothing was requested
    /// and nothing written.
    AlreadyPresent,
    /// The file was fetched and written.
    Stored,
}

/// The view of a body that may be absent.
pub open spec fn bytes_model(bytes: Option<Vec<u8>>) -> Option<Seq<u8>> {
    match bytes {
        Some(bytes) => Some(bytes@),
        None => None,
    }
}

/// How far a download has come.
#[derive(Debug)]
pub enum DownloadStage {
    /// The file's place is being looked at.
    Probing,
    /// The file is being fetched.
    Fetching,
    /// The fetched body is being written.
    Storing { body: Vec<u8> },
    /// The download is over.
    Finished { outcome: Result<Downloaded, MirrorError> },
}

/// [`DownloadStage`] as a mathematical value.
pub enum DownloadStageModel {
    Probing,
    Fetching,
    Storing { body: Seq<u8> },
    Finished { outcome: Result<Downloaded, MirrorError> },
}

impl View for DownloadStage {
    type V = DownloadStageModel;

    open spec fn view(&self) -> DownloadStageModel {
        match self {
            DownloadStage::Probing => DownloadStageModel::Probing,
            DownloadStage::Fetching => DownloadStageModel::Fetching,
            DownloadStage::Storing { body } => DownloadStageModel::Storing { body: body@ },
            DownloadStage::Finished { outcome } => DownloadStageModel::Finished {
                outcome: *outcome,
            },
        }
    }
}

/// What the driver of a download has to do next.
#[derive(Debug)]
pub enum DownloadRequest<'a> {
    /// Find out whether anything exists at `path`.
    Probe { path: String },
    /// Fetch the body of `url` as bytes.
    Fetch { url: &'a str },
    /// Write `body` to the file at `path`, so that a failed write leaves no
    /// file there.
    Write { path: String, body: &'a [u8] },
    /// Nothing: the download is over.
    Nothing,
}

/// [`DownloadRequest`] as a mathematical value.
pub enum DownloadRequestModel {
    Probe { path: Seq<char> },
    Fetch { url: Seq<char> },
    Write { path: Seq<char>, body: Seq<u8> },
    Nothing,
}

impl<'a> View for DownloadRequest<'a> {
    type V = DownloadRequestModel;

    open spec fn view(&self) -> DownloadRequestModel {
        match self {
            DownloadRequest::Probe { path } => DownloadRequestModel::Probe { path: path@ },
            DownloadRequest::Fetch { url } => DownloadRequestModel::Fetch { url: url@ },
            DownloadRequest::Write { path, body } => DownloadRequestModel::Write {
                path: path@,
                body: body@,
            },
            DownloadRequest::Nothing => DownloadRequestModel::Nothing,
        }
    }
}

/// The download of one file into one destination directory.
#[derive(Debug)]
pub struct DownloadFlow {
    file: FileDescriptor,
    dest_dir: String,
    stage: DownloadStage,
}

/// [`DownloadFlow`] as a mathematical value.
pub struct DownloadFlowModel {
    pub file: FileModel,
    pub dest_dir: Seq<char>,
    pub stage: DownloadStageModel,
}

impl DownloadFlowModel {
    /// A download that has not asked for anything yet.
    pub open spec fn start(file: FileModel, dest_dir: Seq<char>) -> DownloadFlowModel {
        DownloadFlowModel { file, dest_dir, stage: DownloadStageModel::Probing }
    }

    /// The place of the file in the destination directory.
    pub open spec fn path(self) -> Seq<char> {
        download_path_of(self.dest_dir, self.file.name)
    }

    /// What the driver has to do next.
    pub open spec fn request(self) -> DownloadRequestModel {
        match self.stage {
            DownloadStageModel::Probing => DownloadRequestModel::Probe { path: self.path() },
            DownloadStageModel::Fetching => DownloadRequestModel::Fetch { url: self.file.url },
            DownloadStageModel::Storing { body } => DownloadRequestModel::Write {
                path: self.path(),
                body,
            },
            DownloadStageModel::Finished { .. } => DownloadRequestModel::Nothing,
        }
    }

    /// The download at `stage`.
    pub open spec fn at(self, stage: DownloadStageModel) -> DownloadFlowModel {
        DownloadFlowModel { stage, ..self }
    }

    /// After the look at the file's place: whatever stands there counts as
    /// the file, and an empty place sends the download to the remote side.
    pub open spec fn after_probe(self, present: bool) -> DownloadFlowModel {
        match self.stage {
            DownloadStageModel::Probing => if present {
                self.at(DownloadStageModel::Finished { outcome: Ok(Downloaded::AlreadyPresent) })
            } else {
                self.at(DownloadStageModel::Fetching)
            },
            _ => self,
        }
    }

    /// After the fetch: a body is to be written, and a failed fetch ends the
    /// download.
    pub open spec fn after_fetch(self, fetched: Option<Seq<u8>>) -> DownloadFlowModel {
        match (self.stage, fetched) {
            (DownloadStageModel::Fetching, Some(body)) => self.at(
                DownloadStageModel::Storing { body },
            ),
            (DownloadStageModel::Fetching, None) => self.at(
                DownloadStageModel::Finished { outcome: Err(MirrorError::Fetch) },
            ),
            _ => self,
        }
    }

    /// After the write, which ends the download either way.
    pub open spec fn after_store(self, written: bool) -> DownloadFlowModel {
        match self.stage {
            DownloadStageModel::Storing { .. } => if written {
                self.at(DownloadStageModel::Finished { outcome: Ok(Downloaded::Stored) })
            } else {
                self.at(DownloadStageModel::Finished { outcome: Err(MirrorError::Persist) })
            },
            _ => self,
        }
    }

    /// The outcome, once the download is over.
    pub open spec fn outcome(self) -> Option<Result<Downloaded, MirrorError>> {
        match self.stage {
            DownloadStageModel::Finished { outcome } => Some(outcome),
            _ => None,
        }
    }

    /// The download and its surroundings after a faithful driver has done
    /// what the download asks for and reported it.
    pub open spec fn served(self, world: World<Seq<u8>>) -> (DownloadFlowModel, World<Seq<u8>>) {
        match self.request() {
            DownloadRequestModel::Probe { path } => (self.after_probe(world.present(path)), world),
            DownloadRequestModel::Fetch { url } => (
                self.after_fetch(world.response(url)),
                world.after_request(url),
            ),
            DownloadRequestModel::Write { path, body } => (
                self.after_store(world.writable(path)),
                world.after_write(path, body),
            ),
            DownloadRequestModel::Nothing => (self, world),
        }
    }
}

/// A whole download by a faithful driver: the download and its surroundings
/// after three requests were served, which is as many as a download makes.
pub open spec fn download_run(file: FileModel, dest_dir: Seq<char>, world: World<Seq<u8>>) -> (
    DownloadFlowModel,
    World<Seq<u8>>,
) {
    let first = DownloadFlowModel::start(file, dest_dir).served(world);
    let second = first.0.served(first.1);
    second.0.served(second.1)
}

impl View for DownloadFlow {
    type V = DownloadFlowModel;

    closed spec fn view(&self) -> DownloadFlowModel {
        DownloadFlowModel { file: self.file@, dest_dir: self.dest_dir@, stage: self.stage@ }
    }
}

impl DownloadFlow {
    /// A download of `file` into `dest_dir`.
    pub fn new(file: FileDescriptor, dest_dir: &str) -> (flow: DownloadFlow)
        ensures
            flow@ == DownloadFlowModel::start(file@, dest_dir@),
    {
        DownloadFlow { file, dest_dir: dest_dir.to_owned(), stage: DownloadStage::Probing }
    }

    /// The file that is downloaded.
    pub fn file(&self) -> (file: &FileDescriptor)
        ensures
            file@ == self@.file,
    {
        &self.file
    }

    /// What the driver has to do next.
    pub fn request(&self) -> (request: DownloadRequest<'_>)
        ensures
            request@ == self@.request(),
    {
        match &self.stage {
            DownloadStage::Probing => DownloadRequest::Probe {
                path: download_path(self.dest_dir.as_str(), self.file.name.as_str()),
            },
            DownloadStage::Fetching => DownloadRequest::Fetch { url: self.file.url.as_str() },
            DownloadStage::Storing { body } => DownloadRequest::Write {
                path: download_path(self.dest_dir.as_str(), self.file.name.as_str()),
                body: body.as_slice(),
            },
            DownloadStage::Finished { .. } => DownloadRequest::Nothing,
        }
    }

    /// Reports whether anything exists at the file's place.
    pub fn probed(self, present: bool) -> (next: DownloadFlow)
        ensures
            next@ == self@.after_probe(present),
    {
        let DownloadFlow { file, dest_dir, stage } = self;
        let stage = match stage {
            DownloadStage::Probing => if present {
                DownloadStage::Finished { outcome: Ok(Downloaded::AlreadyPresent) }
            } else {
                DownloadStage::Fetching
            },
            other => other,
        };
        DownloadFlow { file, dest_dir, stage }
    }

    /// Reports what fetching the file gave: its body, or `None` where the
    /// request did not end in a successful response.
    pub fn fetched(self, body: Option<Vec<u8>>) -> (next: DownloadFlow)
        ensures
            next@ == self@.after_fetch(bytes_model(body)),
    {
        let DownloadFlow { file, dest_dir, stage } = self;
        let stage = match stage {
            DownloadStage::Fetching => match body {
                Some(body) => DownloadStage::Storing { body },
                None => DownloadStage::Finished { outcome: Err(MirrorError::Fetch) },
            },
            other => other,
        };
        DownloadFlow { file, dest_dir, stage }
    }

    /// Reports whether the file was written.
    pub fn stored(self, written: bool) -> (next: DownloadFlow)
        ensures
            next@ == self@.after_store(written),
    {
        let DownloadFlow { file, dest_dir, stage } = self;
        let stage = match stage {
            DownloadStage::Storing { .. } => if written {
                DownloadStage::Finished { outcome: Ok(Downloaded::Stored) }
            } else {
                DownloadStage::Finished { outcome: Err(MirrorError::Persist) }
            },
            other => other,
        };
        DownloadFlow { file, dest_dir, stage }
    }

    /// The outcome, once the download is over.
    pub fn outcome(&self) -> (outcome: Option<Result<Downloaded, MirrorError>>)
        ensures
            outcome == self@.outcome(),
    {
        match &self.stage {
            DownloadStage::Finished { outcome } => Some(*outcome),
            _ => None,
        }
    }
}

/// A faithful driver brings every download to its end.
pub proof fn law_download_run_ends(file: FileModel, dest_dir: Seq<char>, world: World<Seq<u8>>)
    ensures
        download_run(file, dest_dir, world).0.outcome() is Some,
{
}

/// A download that finds something at the file's place succeeds at once:
/// nothing is requested, and no file changes.
pub proof fn law_present_file_is_kept(file: FileModel, dest_dir: Seq<char>, world: World<Seq<u8>>)
    requires
        world.present(download_path_of(dest_dir, file.name)),
    ensures
        download_run(file, dest_dir, world).0.outcome() == Some(
            Ok::<Downloaded, MirrorError>(Downloaded::AlreadyPresent),
        ),
        download_run(file, dest_dir, world).1 == world,
{
}

/// A download that finds the file's place empty requests the file's URL
/// once. It succeeds exactly if that request succeeds and the place can be
/// written, and then the place holds the response; a failed download leaves
/// every file as it was.
pub proof fn law_missing_file_is_fetched(
    file: FileModel,
    dest_dir: Seq<char>,
    world: World<Seq<u8>>,
)
    requires
        !world.present(download_path_of(dest_dir, file.name)),
    ensures
        ({
            let path = download_path_of(dest_dir, file.name);
            let end = download_run(file, dest_dir, world);
            &&& end.1.requested == world.requested.push(file.url)
            &&& end.0.outcome() == Some(
                if world.response(file.url) is None {
                    Err::<Downloaded, MirrorError>(MirrorError::Fetch)
                } else if !world.writable(path) {
                    Err(MirrorError::Persist)
                } else {
                    Ok(Downloaded::Stored)
                },
            )
            &&& end.0.outcome() == Some(Ok::<Downloaded, MirrorError>(Downloaded::Stored))
                ==> end.1.files == world.files.insert(path, world.remote[file.url])
            &&& end.0.outcome() matches Some(Err(_)) ==> end.1.files == world.files
        }),
{
}

/// Two downloads of one file in a row, with the file in place after the
/// first: the second requests nothing and leaves every file as it is.
pub proof fn law_download_is_idempotent(file: FileModel, dest_dir: Seq<char>, world: World<Seq<u8>>)
    requires
        download_run(file, dest_dir, world).1.present(download_path_of(dest_dir, file.name)),
    ensures
        ({
            let first = download_run(file, dest_dir, world);
            let second = download_run(file, dest_dir, first.1);
            &&& second.0.outcome() == Some(
                Ok::<Downloaded, MirrorError>(Downloaded::AlreadyPresent),
            )
            &&& second.1 == first.1
        }),
{
    law_present_file_is_kept(file, dest_dir, download_run(file, dest_dir, world).1);
}

/// A failed download takes nothing from any other: a download that follows
/// it ends as it would have ended without it.
pub proof fn law_failed_download_harms_no_other(
    failed: FileModel,
    other: FileModel,
    dest_dir: Seq<char>,
    world: World<Seq<u8>>,
)
    requires
        download_run(failed, dest_dir, world).0.outcome() matches Some(Err(_)),
    ensures
        download_run(failed, dest_dir, world).1.files == world.files,
        download_run(other, dest_dir, download_run(failed, dest_dir, world).1).0.outcome()
            == download_run(other, dest_dir, world).0.outcome(),
        download_run(other, dest_dir, download_run(failed, dest_dir, world).1).1.files
            == download_run(other, dest_dir, world).1.files,
{
}

} // verus!
