//! The mirror run: the package pages are enumerated one after the other, the
//! files that each page names are handed out for download, and what fails is
//! written down without stopping the rest.
//!
//! The run decides and the driver acts. The driver fetches the page that
//! [`MirrorRun::next_page`] names and reports it with
//! [`MirrorRun::page_arrived`], which hands out the files to download; it
//! may download them at the same time as it goes on, and reports each end
//! with [`MirrorRun::download_settled`]. The run is complete when no page is
//! pending and every file handed out has been reported.

use crate::download::Downloaded;
use crate::enumerate::{
    files_absolute, files_model, list_packages, list_versions, listed_packages, listed_versions,
    texts_absolute, texts_model, FileDescriptor, FileModel,
};
use crate::resolve::has_scheme;
use crate::error::MirrorError;
use crate::index::text_model;
use vstd::prelude::*;

verus! {

/// One failure of a run: what failed, and how.
#[derive(Debug)]
pub struct Failure {
    /// The URL of the package page, or the description of the file.
    pub subject: String,
    /// How it failed.
    pub kind: MirrorError,
}

/// [`Failure`] as a mathematical value.
pub struct FailureModel {
    pub subject: Seq<char>,
    pub kind: MirrorError,
}

impl View for Failure {
    type V = FailureModel;

    open spec fn view(&self) -> FailureModel {
        FailureModel { subject: self.subject@, kind: self.kind }
    }
}

impl FailureModel {
    /// The line that reports the failure: what failed, a colon and a space,
    /// and how it failed.
    pub open spec fn described(self) -> Seq<char> {
        self.subject + ": "@ + MirrorError::message_of(self.kind)
    }
}

impl Failure {
    /// The line that reports the failure. It begins with what failed.
    pub fn describe(&self) -> (line: String)
        ensures
            line@ == self@.described(),
    {
        let mut line = self.subject.clone();
        line.append(": ");
        line.append(self.kind.message());
        line
    }
}

/// The models of a sequence of failures, in the same order.
pub open spec fn failures_model(failures: Seq<Failure>) -> Seq<FailureModel> {
    failures.map_values(|failure: Failure| failure@)
}

/// What a package page gave: the files it names, or why there are none. A
/// page that could not be fetched is a failed fetch, and a page that was
/// fetched is read against the repository root.
pub open spec fn page_outcome(repo_url: Seq<char>, fetched: Option<Seq<char>>) -> Result<
    Seq<FileModel>,
    MirrorError,
> {
    match fetched {
        None => Err(MirrorError::Fetch),
        Some(body) => listed_versions(body, repo_url),
    }
}

/// The files to download for a package page; none where the page failed.
pub open spec fn page_files(repo_url: Seq<char>, fetched: Option<Seq<char>>) -> Seq<FileModel> {
    match page_outcome(repo_url, fetched) {
        Ok(files) => files,
        Err(_) => Seq::empty(),
    }
}

/// The files to download for some package pages, page after page.
pub open spec fn pages_files(repo_url: Seq<char>, pages: Seq<Option<Seq<char>>>) -> Seq<FileModel>
    decreases pages.len(),
{
    if pages.len() == 0 {
        Seq::empty()
    } else {
        pages_files(repo_url, pages.drop_last()) + page_files(repo_url, pages.last())
    }
}

/// The failures that some package pages leave, page after page: for each
/// page that failed, the URL of the package and how the page failed.
pub open spec fn pages_failures(
    repo_url: Seq<char>,
    packages: Seq<Seq<char>>,
    pages: Seq<Option<Seq<char>>>,
) -> Seq<FailureModel>
    decreases pages.len(),
{
    if pages.len() == 0 {
        Seq::empty()
    } else {
        let before = pages_failures(repo_url, packages, pages.drop_last());
        match page_outcome(repo_url, pages.last()) {
            Ok(_) => before,
            Err(kind) => before.push(FailureModel { subject: packages[pages.len() - 1], kind }),
        }
    }
}

/// How many of some package pages failed.
pub open spec fn pages_failed(repo_url: Seq<char>, pages: Seq<Option<Seq<char>>>) -> nat
    decreases pages.len(),
{
    if pages.len() == 0 {
        0
    } else {
        pages_failed(repo_url, pages.drop_last()) + if page_outcome(repo_url, pages.last())
            is Err {
            1nat
        } else {
            0nat
        }
    }
}

/// A mirror run as a mathematical value.
pub struct MirrorModel {
    /// The repository root, against which the package pages are read.
    pub repo_url: Seq<char>,
    /// The package pages, in the order of the index.
    pub packages: Seq<Seq<char>>,
    /// How many package pages have been dealt with.
    pub cursor: nat,
    /// How many files have been handed out for download.
    pub handed_out: nat,
    /// How many of them have been reported as ended.
    pub settled: nat,
    /// What failed so far, oldest first.
    pub failures: Seq<FailureModel>,
}

impl MirrorModel {
    /// A run that has dealt with no page yet.
    pub open spec fn start(repo_url: Seq<char>, packages: Seq<Seq<char>>) -> MirrorModel {
        MirrorModel {
            repo_url,
            packages,
            cursor: 0,
            handed_out: 0,
            settled: 0,
            failures: Seq::empty(),
        }
    }

    /// The package page to fetch next; `None` when all have been dealt with.
    pub open spec fn pending(self) -> Option<Seq<char>> {
        if self.cursor < self.packages.len() {
            Some(self.packages[self.cursor as int])
        } else {
            None
        }
    }

    /// The files to download for the pending page, given what fetching it
    /// gave.
    pub open spec fn files_of_page(self, fetched: Option<Seq<char>>) -> Seq<FileModel> {
        if self.pending() is Some {
            page_files(self.repo_url, fetched)
        } else {
            Seq::empty()
        }
    }

    /// The run after the pending page was dealt with: the next page is
    /// pending, the files of the page count as handed out, and a page that
    /// failed has left a failure under its URL.
    pub open spec fn after_page(self, fetched: Option<Seq<char>>) -> MirrorModel {
        match self.pending() {
            None => self,
            Some(page) => match page_outcome(self.repo_url, fetched) {
                Ok(files) => MirrorModel {
                    cursor: self.cursor + 1,
                    handed_out: self.handed_out + files.len(),
                    ..self
                },
                Err(kind) => MirrorModel {
                    cursor: self.cursor + 1,
                    failures: self.failures.push(FailureModel { subject: page, kind }),
                    ..self
                },
            },
        }
    }

    /// How many files have been handed out and not yet reported.
    pub open spec fn outstanding(self) -> int {
        self.handed_out - self.settled
    }

    /// The run after a download ended: it counts as settled, and a failed
    /// one has left a failure under the file's description. A report with no
    /// download outstanding changes nothing.
    pub open spec fn after_download(self, file: FileModel, outcome: Result<Downloaded, MirrorError>)
        -> MirrorModel {
        if self.outstanding() <= 0 {
            self
        } else {
            match outcome {
                Ok(_) => MirrorModel { settled: self.settled + 1, ..self },
                Err(kind) => MirrorModel {
                    settled: self.settled + 1,
                    failures: self.failures.push(
                        FailureModel { subject: file.described(), kind },
                    ),
                    ..self
                },
            }
        }
    }

    /// Whether the run is over: no page is pending and no download is
    /// outstanding.
    pub open spec fn complete(self) -> bool {
        self.pending() is None && self.outstanding() <= 0
    }

    /// The run after some downloads ended, one after the other.
    pub open spec fn after_downloads(
        self,
        ends: Seq<(FileModel, Result<Downloaded, MirrorError>)>,
    ) -> MirrorModel
        decreases ends.len(),
    {
        if ends.len() == 0 {
            self
        } else {
            self.after_downloads(ends.drop_last()).after_download(ends.last().0, ends.last().1)
        }
    }

    /// The run after some pages were dealt with, one after the other.
    pub open spec fn after_pages(self, pages: Seq<Option<Seq<char>>>) -> MirrorModel
        decreases pages.len(),
    {
        if pages.len() == 0 {
            self
        } else {
            self.after_pages(pages.drop_last()).after_page(pages.last())
        }
    }

    /// The files handed out while some pages were dealt with, in the order
    /// in which they were handed out.
    pub open spec fn files_of_pages(self, pages: Seq<Option<Seq<char>>>) -> Seq<FileModel>
        decreases pages.len(),
    {
        if pages.len() == 0 {
            Seq::empty()
        } else {
            self.files_of_pages(pages.drop_last()) + self.after_pages(
                pages.drop_last(),
            ).files_of_page(pages.last())
        }
    }
}

/// The enumeration of the packages of one repository.
#[derive(Debug)]
pub struct MirrorRun {
    repo_url: String,
    packages: Vec<String>,
    cursor: usize,
    handed_out: u128,
    settled: u128,
    failures: Vec<Failure>,
}

impl View for MirrorRun {
    type V = MirrorModel;

    closed spec fn view(&self) -> MirrorModel {
        MirrorModel {
            repo_url: self.repo_url@,
            packages: texts_model(self.packages@),
            cursor: self.cursor as nat,
            handed_out: self.handed_out as nat,
            settled: self.settled as nat,
            failures: failures_model(self.failures@),
        }
    }
}

/// No more than `count` times what a `usize` holds fits in a `u128`, for
/// any `count` that a `usize` holds.
proof fn lemma_counter_fits(count: int)
    requires
        0 <= count <= usize::MAX,
    ensures
        count * usize::MAX <= u128::MAX,
{
    assert(count * usize::MAX <= 0xffff_ffff_ffff_ffff * 0xffff_ffff_ffff_ffff) by (nonlinear_arith)
        requires
            0 <= count <= 0xffff_ffff_ffff_ffff,
            0 <= usize::MAX <= 0xffff_ffff_ffff_ffff,
    ;
}

impl MirrorRun {
    /// The pages dealt with are among the packages, no more downloads are
    /// settled than were handed out, and the files handed out are no more
    /// than the pages dealt with could have named.
    #[verifier::type_invariant]
    spec fn well_formed(self) -> bool {
        &&& self.cursor <= self.packages.len()
        &&& self.settled <= self.handed_out
        &&& self.handed_out <= self.cursor * usize::MAX
    }

    /// A run over the package pages `packages` of the repository at
    /// `repo_url`.
    pub fn new(repo_url: &str, packages: Vec<String>) -> (run: MirrorRun)
        ensures
            run@ == MirrorModel::start(repo_url@, texts_model(packages@)),
    {
        let run = MirrorRun {
            repo_url: repo_url.to_owned(),
            packages,
            cursor: 0,
            handed_out: 0,
            settled: 0,
            failures: Vec::new(),
        };
        assert(failures_model(run.failures@) =~= Seq::empty());
        run
    }

    /// A run over the packages that the index `index_html` of the
    /// repository at `repo_url` names. Under a root that is an absolute URL,
    /// every package page of the run has an absolute URL. Without a
    /// readable index there is nothing to mirror: the failure of the listing
    /// is the failure of the run.
    pub fn from_index(repo_url: &str, index_html: &str) -> (begun: Result<MirrorRun, MirrorError>)
        ensures
            match begun {
                Ok(run) => listed_packages(index_html@, repo_url@) matches Ok(packages) && run@
                    == MirrorModel::start(repo_url@, packages),
                Err(e) => listed_packages(index_html@, repo_url@) == Err::<
                    Seq<Seq<char>>,
                    MirrorError,
                >(e),
            },
            begun matches Ok(run) ==> (has_scheme(repo_url@) ==> texts_absolute(run@.packages)),
    {
        match list_packages(index_html, repo_url) {
            Ok(packages) => Ok(MirrorRun::new(repo_url, packages)),
            Err(e) => Err(e),
        }
    }

    /// The URL of the package page to fetch next; `None` when every page
    /// has been dealt with.
    pub fn next_page(&self) -> (page: Option<&str>)
        ensures
            match page {
                Some(url) => self@.pending() == Some(url@),
                None => self@.pending() is None,
            },
    {
        if self.cursor < self.packages.len() {
            Some(self.packages[self.cursor].as_str())
        } else {
            None
        }
    }

    /// Reports what fetching the pending page gave: its body, or `None`
    /// where the request did not end in a successful response. Returns the
    /// run as it goes on, and the files to download for that page, whose
    /// URLs are absolute. A page that could not be fetched or read leaves a
    /// failure and no files, and the run goes on with the next page. With no
    /// page pending, nothing happens.
    pub fn page_arrived(self, fetched: Option<String>) -> (next: (MirrorRun, Vec<FileDescriptor>))
        ensures
            next.0@ == self@.after_page(text_model(fetched)),
            files_model(next.1@) == self@.files_of_page(text_model(fetched)),
            files_absolute(files_model(next.1@)),
    {
        proof {
            use_type_invariant(&self);
        }
        if self.cursor >= self.packages.len() {
            let files: Vec<FileDescriptor> = Vec::new();
            assert(files_model(files@) =~= Seq::empty());
            return (self, files);
        }
        let MirrorRun { repo_url, packages, cursor, handed_out, settled, mut failures } = self;
        let listing = match fetched {
            None => Err(MirrorError::Fetch),
            Some(body) => list_versions(body.as_str(), repo_url.as_str()),
        };
        let files = match listing {
            Ok(files) => files,
            Err(kind) => {
                let ghost before = failures_model(failures@);
                let failure = Failure { subject: packages[cursor].clone(), kind };
                failures.push(failure);
                assert(failures_model(failures@) =~= before.push(failure@));
                let files: Vec<FileDescriptor> = Vec::new();
                assert(files_model(files@) =~= Seq::empty());
                files
            },
        };
        proof {
            lemma_counter_fits(cursor + 1);
            assert(cursor * usize::MAX + usize::MAX == (cursor + 1) * usize::MAX)
                by (nonlinear_arith);
        }
        let run = MirrorRun {
            repo_url,
            packages,
            cursor: cursor + 1,
            handed_out: handed_out + files.len() as u128,
            settled,
            failures,
        };
        (run, files)
    }

    /// Reports how the download of `file` ended and returns the run as it
    /// goes on. The download counts as settled, and a failed one leaves a
    /// failure. With no download outstanding, nothing happens.
    pub fn download_settled(self, file: &FileDescriptor, outcome: Result<Downloaded, MirrorError>)
        -> (next: MirrorRun)
        ensures
            next@ == self@.after_download(file@, outcome),
    {
        proof {
            use_type_invariant(&self);
        }
        if self.settled >= self.handed_out {
            return self;
        }
        let MirrorRun { repo_url, packages, cursor, handed_out, settled, mut failures } = self;
        match outcome {
            Ok(_) => {},
            Err(kind) => {
                let ghost before = failures_model(failures@);
                let failure = Failure { subject: file.describe(), kind };
                failures.push(failure);
                assert(failures_model(failures@) =~= before.push(failure@));
            },
        }
        MirrorRun { repo_url, packages, cursor, handed_out, settled: settled + 1, failures }
    }

    /// Whether the run is over: no page is pending and every file handed
    /// out has been reported.
    pub fn is_complete(&self) -> (complete: bool)
        ensures
            complete == self@.complete(),
    {
        self.cursor >= self.packages.len() && self.settled >= self.handed_out
    }

    /// What failed so far, oldest first.
    pub fn failures(&self) -> (failures: &Vec<Failure>)
        ensures
            failures_model(failures@) == self@.failures,
    {
        &self.failures
    }
}

/// How a download ends changes neither the pages that are still to be
/// fetched nor the files that any page hands out: a failed download stops no
/// other.
pub proof fn law_downloads_do_not_steer(
    run: MirrorModel,
    file: FileModel,
    outcome: Result<Downloaded, MirrorError>,
    fetched: Option<Seq<char>>,
)
    ensures
        run.after_download(file, outcome).pending() == run.pending(),
        run.after_download(file, outcome).packages == run.packages,
        run.after_download(file, outcome).cursor == run.cursor,
        run.after_download(file, outcome).handed_out == run.handed_out,
        run.after_download(file, outcome).files_of_page(fetched) == run.files_of_page(fetched),
        run.after_download(file, outcome).after_page(fetched).pending() == run.after_page(
            fetched,
        ).pending(),
{
}

/// Whatever a page gave, the run moves on to the page behind it.
pub proof fn law_every_page_is_passed(run: MirrorModel, fetched: Option<Seq<char>>)
    requires
        run.pending() is Some,
    ensures
        run.after_page(fetched).cursor == run.cursor + 1,
        run.after_page(fetched).packages == run.packages,
        run.after_page(fetched).repo_url == run.repo_url,
        run.after_page(fetched).failures.len() == run.failures.len() + if page_outcome(
            run.repo_url,
            fetched,
        ) is Err {
            1nat
        } else {
            0nat
        },
{
}

/// A run that is given what fetching each of its pages gave, in turn, ends
/// with no page pending. The files it hands out are those of each page by
/// itself, page after page: what one page gave, or that it failed, has no
/// part in the files of another. Each failed page leaves one failure.
pub proof fn law_pages_are_isolated(
    repo_url: Seq<char>,
    packages: Seq<Seq<char>>,
    pages: Seq<Option<Seq<char>>>,
)
    requires
        pages.len() <= packages.len(),
    ensures
        ({
            let run = MirrorModel::start(repo_url, packages);
            &&& run.after_pages(pages).cursor == pages.len()
            &&& run.after_pages(pages).packages == packages
            &&& run.after_pages(pages).repo_url == repo_url
            &&& pages.len() == packages.len() ==> run.after_pages(pages).pending() is None
            &&& run.files_of_pages(pages) == pages_files(repo_url, pages)
            &&& run.after_pages(pages).handed_out == pages_files(repo_url, pages).len()
            &&& run.after_pages(pages).settled == 0
            &&& run.after_pages(pages).failures == pages_failures(repo_url, packages, pages)
            &&& run.after_pages(pages).failures.len() == pages_failed(repo_url, pages)
        }),
    decreases pages.len(),
{
    if pages.len() > 0 {
        law_pages_are_isolated(repo_url, packages, pages.drop_last());
    }
}

/// A package page that could not be fetched hands out no files and leaves
/// one failure: a failed fetch under the URL of that page, whose report
/// begins with that URL. Nothing else of the run changes, and the run goes
/// on with the page behind it.
pub proof fn law_failed_fetch_is_reported(run: MirrorModel)
    requires
        run.pending() is Some,
    ensures
        ({
            let page = run.pending()->Some_0;
            let failure = FailureModel { subject: page, kind: MirrorError::Fetch };
            &&& page_outcome(run.repo_url, None) == Err::<Seq<FileModel>, MirrorError>(
                MirrorError::Fetch,
            )
            &&& run.files_of_page(None) == Seq::<FileModel>::empty()
            &&& run.after_page(None) == MirrorModel {
                cursor: run.cursor + 1,
                failures: run.failures.push(failure),
                ..run
            }
            &&& failure.described().subrange(0, page.len() as int) == page
            &&& run.after_page(None).pending() == if run.cursor + 1 < run.packages.len() {
                Some(run.packages[run.cursor as int + 1])
            } else {
                None::<Seq<char>>
            }
        }),
{
    let page = run.pending()->Some_0;
    let failure = FailureModel { subject: page, kind: MirrorError::Fetch };
    assert(failure.described().subrange(0, page.len() as int) =~= page);
}

/// How many of some downloads failed.
pub open spec fn downloads_failed(ends: Seq<(FileModel, Result<Downloaded, MirrorError>)>) -> nat
    decreases ends.len(),
{
    if ends.len() == 0 {
        0
    } else {
        downloads_failed(ends.drop_last()) + if ends.last().1 is Err {
            1nat
        } else {
            0nat
        }
    }
}

/// Reports of downloads, as long as downloads are outstanding, each settle
/// one and leave one failure for each that failed; nothing else moves.
pub proof fn lemma_downloads_settle(
    run: MirrorModel,
    ends: Seq<(FileModel, Result<Downloaded, MirrorError>)>,
)
    requires
        ends.len() <= run.outstanding(),
    ensures
        run.after_downloads(ends).settled == run.settled + ends.len(),
        run.after_downloads(ends).handed_out == run.handed_out,
        run.after_downloads(ends).cursor == run.cursor,
        run.after_downloads(ends).packages == run.packages,
        run.after_downloads(ends).failures.len() == run.failures.len() + downloads_failed(ends),
    decreases ends.len(),
{
    if ends.len() > 0 {
        lemma_downloads_settle(run, ends.drop_last());
    }
}

/// A run that is given what fetching each of its pages gave, and then how
/// the download of each file that it handed out ended, is complete with
/// the last of these reports and not before, whatever failed on the way;
/// its failures are as many as the pages and the downloads that failed.
pub proof fn law_run_completes(
    repo_url: Seq<char>,
    packages: Seq<Seq<char>>,
    pages: Seq<Option<Seq<char>>>,
    ends: Seq<(FileModel, Result<Downloaded, MirrorError>)>,
)
    requires
        pages.len() == packages.len(),
        ends.len() == pages_files(repo_url, pages).len(),
    ensures
        ({
            let run = MirrorModel::start(repo_url, packages).after_pages(pages);
            &&& ends.len() > 0 ==> !run.after_downloads(ends.drop_last()).complete()
            &&& run.after_downloads(ends).complete()
            &&& run.after_downloads(ends).failures.len() == pages_failed(repo_url, pages)
                + downloads_failed(ends)
        }),
{
    law_pages_are_isolated(repo_url, packages, pages);
    let run = MirrorModel::start(repo_url, packages).after_pages(pages);
    lemma_downloads_settle(run, ends);
    if ends.len() > 0 {
        lemma_downloads_settle(run, ends.drop_last());
    }
}

} // verus!
