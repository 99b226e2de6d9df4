use repo_mirror::download::{DownloadFlow, DownloadRequest, Downloaded};
use repo_mirror::error::MirrorError;
use repo_mirror::index::{IndexFlow, IndexRequest};
use repo_mirror::mirror::{Failure, MirrorRun};
use std::collections::HashMap;

fn packages(urls: &[&str]) -> Vec<String> {
    urls.iter().map(|url| url.to_string()).collect()
}

#[test]
fn pages_are_asked_for_in_index_order() {
    let run = MirrorRun::new(
        "https://example.org",
        packages(&["https://example.org/alpha", "https://example.org/beta"]),
    );
    assert_eq!(run.next_page(), Some("https://example.org/alpha"));
    assert_eq!(run.next_page(), Some("https://example.org/alpha"));
    assert!(!run.is_complete());
    let (run, _) = run.page_arrived(Some(String::new()));
    assert_eq!(run.next_page(), Some("https://example.org/beta"));
    assert!(!run.is_complete());
    let (run, _) = run.page_arrived(Some(String::new()));
    assert_eq!(run.next_page(), None);
    assert!(run.failures().is_empty());
    assert!(run.is_complete());
}

#[test]
fn run_without_packages_has_nothing_to_fetch() {
    let run = MirrorRun::new("https://example.org", Vec::new());
    assert_eq!(run.next_page(), None);
    assert!(run.is_complete());
    let (run, files) = run.page_arrived(Some("<a href=\"x\">x</a>".to_string()));
    assert!(files.is_empty());
    assert!(run.failures().is_empty());
    assert!(run.is_complete());
}

#[test]
fn page_hands_out_its_files_resolved_against_the_root() {
    let run = MirrorRun::new("https://example.org", packages(&["https://example.org/alpha"]));
    let (run, files) = run.page_arrived(Some(
        "<a href=\"files/alpha-1.0.tar.gz\">alpha-1.0.tar.gz</a>\
         <a href=\"https://cdn.example.net/alpha-1.1.whl\">alpha-1.1.whl</a>"
            .to_string(),
    ));
    assert_eq!(files.len(), 2);
    assert_eq!(files[0].name, "alpha-1.0.tar.gz");
    assert_eq!(files[0].url, "https://example.org/files/alpha-1.0.tar.gz");
    assert_eq!(files[1].name, "alpha-1.1.whl");
    assert_eq!(files[1].url, "https://cdn.example.net/alpha-1.1.whl");
    assert!(run.failures().is_empty());
    assert_eq!(run.next_page(), None);
    assert!(!run.is_complete());
}

#[test]
fn page_that_was_not_fetched_leaves_a_fetch_failure() {
    let run = MirrorRun::new(
        "https://example.org",
        packages(&["https://example.org/alpha", "https://example.org/beta"]),
    );
    let (run, files) = run.page_arrived(None);
    assert!(files.is_empty());
    assert_eq!(run.failures().len(), 1);
    assert_eq!(run.failures()[0].subject, "https://example.org/alpha");
    assert_eq!(run.failures()[0].kind, MirrorError::Fetch);
    assert_eq!(run.next_page(), Some("https://example.org/beta"));
}

#[test]
fn page_that_cannot_be_read_leaves_its_failure() {
    let run = MirrorRun::new(
        "https://example.org",
        packages(&["https://example.org/alpha", "https://example.org/beta"]),
    );
    let (run, files) = run.page_arrived(Some(
        "<a href=\"ok.whl\">ok.whl</a><a href=\"https://[::1/\">broken</a>".to_string(),
    ));
    assert!(files.is_empty());
    assert_eq!(run.failures().len(), 1);
    assert_eq!(run.failures()[0].subject, "https://example.org/alpha");
    assert_eq!(run.failures()[0].kind, MirrorError::UrlResolution);
    let (run, files) = run.page_arrived(Some("<a href=\"b.whl\">b.whl</a>".to_string()));
    assert_eq!(files.len(), 1);
    assert_eq!(run.failures().len(), 1);
}

#[test]
fn failed_download_is_written_down_and_steers_nothing() {
    let run = MirrorRun::new(
        "https://example.org",
        packages(&["https://example.org/alpha", "https://example.org/beta"]),
    );
    let (run, files) = run
        .page_arrived(Some("<a href=\"a.whl\">a.whl</a><a href=\"b.whl\">b.whl</a>".to_string()));
    assert_eq!(files.len(), 2);
    let run = run.download_settled(&files[0], Err(MirrorError::Fetch));
    let run = run.download_settled(&files[1], Ok(Downloaded::Stored));
    assert_eq!(run.failures().len(), 1);
    assert_eq!(run.failures()[0].subject, "a.whl: https://example.org/a.whl");
    assert_eq!(run.failures()[0].kind, MirrorError::Fetch);
    assert_eq!(run.next_page(), Some("https://example.org/beta"));
    assert!(!run.is_complete());
    let (run, files) = run.page_arrived(Some("<a href=\"c.whl\">c.whl</a>".to_string()));
    assert_eq!(files.len(), 1);
    assert!(!run.is_complete());
    let run = run.download_settled(&files[0], Err(MirrorError::Persist));
    assert_eq!(run.failures().len(), 2);
    assert_eq!(run.failures()[1].subject, "c.whl: https://example.org/c.whl");
    assert_eq!(run.failures()[1].kind, MirrorError::Persist);
    assert_eq!(run.next_page(), None);
    assert!(run.is_complete());
}

#[test]
fn report_without_an_outstanding_download_changes_nothing() {
    let run = MirrorRun::new("https://example.org", packages(&["https://example.org/alpha"]));
    let (run, files) = run.page_arrived(Some("<a href=\"a.whl\">a.whl</a>".to_string()));
    let run = run.download_settled(&files[0], Ok(Downloaded::AlreadyPresent));
    assert!(run.is_complete());
    let run = run.download_settled(&files[0], Err(MirrorError::Fetch));
    assert!(run.failures().is_empty());
    assert!(run.is_complete());
}

#[test]
fn downloads_may_settle_while_pages_are_pending() {
    let run = MirrorRun::new(
        "https://example.org",
        packages(&["https://example.org/alpha", "https://example.org/beta"]),
    );
    let (run, first) = run.page_arrived(Some("<a href=\"a.whl\">a.whl</a>".to_string()));
    let (run, second) = run.page_arrived(Some("<a href=\"b.whl\">b.whl</a>".to_string()));
    assert!(!run.is_complete());
    let run = run.download_settled(&second[0], Ok(Downloaded::Stored));
    assert!(!run.is_complete());
    let run = run.download_settled(&first[0], Ok(Downloaded::Stored));
    assert!(run.is_complete());
    assert!(run.failures().is_empty());
}

#[test]
fn failure_is_described_by_subject_and_message() {
    let failure =
        Failure { subject: "https://example.org/beta".to_string(), kind: MirrorError::Fetch };
    assert_eq!(failure.describe(), "https://example.org/beta: remote request failed");
    let failure = Failure {
        subject: "a.whl: https://example.org/a.whl".to_string(),
        kind: MirrorError::Persist,
    };
    assert_eq!(failure.describe(), "a.whl: https://example.org/a.whl: file could not be written");
}

#[test]
fn failed_fetch_of_a_page_is_reported_under_its_url() {
    let run = MirrorRun::new(
        "https://example.org",
        packages(&["https://example.org/alpha", "https://example.org/beta"]),
    );
    let (run, _) = run.page_arrived(Some(String::new()));
    let (run, files) = run.page_arrived(None);
    assert!(files.is_empty());
    assert_eq!(run.failures().len(), 1);
    assert_eq!(run.failures()[0].kind, MirrorError::Fetch);
    assert!(run.failures()[0].describe().contains("beta"));
    assert!(run.failures()[0].describe().starts_with("https://example.org/beta"));
    assert_eq!(run.next_page(), None);
    assert!(run.is_complete());
}

#[test]
fn run_begins_with_the_packages_of_the_index() {
    let run = MirrorRun::from_index(
        "https://example.org",
        "<a href=\"alpha\">alpha</a><a href=\"beta\">beta</a>",
    )
    .unwrap();
    assert_eq!(run.next_page(), Some("https://example.org/alpha"));
}

#[test]
fn run_does_not_begin_without_a_readable_index() {
    let begun = MirrorRun::from_index("example.org", "<a href=\"alpha\">alpha</a>");
    assert_eq!(begun.unwrap_err(), MirrorError::UrlResolution);
}

/// A whole run against files and responses held in memory: what a driver
/// does with the file system and the network.
fn mirror(
    repo_url: &str,
    dest_dir: &str,
    remote: &HashMap<String, Vec<u8>>,
    files: &mut HashMap<String, Vec<u8>>,
    requests: &mut Vec<String>,
) -> Result<Vec<(String, MirrorError)>, MirrorError> {
    let mut flow = IndexFlow::new(repo_url, dest_dir);
    let index = loop {
        flow = match flow.request() {
            IndexRequest::ReadCache { path } => {
                let cached = files.get(&path).map(|bytes| String::from_utf8(bytes.clone()).unwrap());
                flow.cache_read(cached)
            }
            IndexRequest::FetchIndex { url } => {
                requests.push(url.clone());
                let body = remote.get(&url).map(|bytes| String::from_utf8(bytes.clone()).unwrap());
                flow.fetched(body)
            }
            IndexRequest::WriteCache { path, body } => {
                files.insert(path, body.as_bytes().to_vec());
                flow.stored(true)
            }
            IndexRequest::Nothing => match flow.finish() {
                Ok(outcome) => break outcome?,
                Err(_) => unreachable!(),
            },
        };
    };
    let mut run = MirrorRun::from_index(repo_url, &index)?;
    let mut scheduled = Vec::new();
    while let Some(page) = run.next_page() {
        let page = page.to_string();
        requests.push(page.clone());
        let body = remote.get(&page).map(|bytes| String::from_utf8(bytes.clone()).unwrap());
        let (next, files) = run.page_arrived(body);
        run = next;
        scheduled.extend(files);
    }
    for file in scheduled {
        let mut flow = DownloadFlow::new(file, dest_dir);
        let outcome = loop {
            flow = match flow.request() {
                DownloadRequest::Probe { path } => {
                    let present = files.contains_key(&path);
                    flow.probed(present)
                }
                DownloadRequest::Fetch { url } => {
                    requests.push(url.to_string());
                    let body = remote.get(url).cloned();
                    flow.fetched(body)
                }
                DownloadRequest::Write { path, body } => {
                    files.insert(path, body.to_vec());
                    flow.stored(true)
                }
                DownloadRequest::Nothing => break flow.outcome().unwrap(),
            };
        };
        assert!(!run.is_complete());
        run = run.download_settled(flow.file(), outcome);
    }
    assert!(run.is_complete());
    Ok(run.failures().iter().map(|failure| (failure.subject.clone(), failure.kind)).collect())
}

#[test]
fn failed_package_page_does_not_stop_the_run() {
    let mut remote = HashMap::new();
    remote.insert(
        "https://example.org/simple/".to_string(),
        b"<html><body><a href=\"alpha\">alpha</a><a href=\"beta\">beta</a></body></html>".to_vec(),
    );
    remote.insert(
        "https://example.org/alpha".to_string(),
        b"<a href=\"files/alpha-1.0.tar.gz\">alpha-1.0.tar.gz</a>".to_vec(),
    );
    remote.insert("https://example.org/files/alpha-1.0.tar.gz".to_string(), vec![31, 139, 8, 0]);
    let mut files = HashMap::new();
    let mut requests = Vec::new();
    let failures = mirror("https://example.org", "/srv/mirror", &remote, &mut files, &mut requests)
        .unwrap();
    assert_eq!(files.get("/srv/mirror/alpha-1.0.tar.gz"), Some(&vec![31, 139, 8, 0]));
    assert_eq!(failures, vec![("https://example.org/beta".to_string(), MirrorError::Fetch)]);
    assert_eq!(
        requests,
        vec![
            "https://example.org/simple/",
            "https://example.org/alpha",
            "https://example.org/beta",
            "https://example.org/files/alpha-1.0.tar.gz",
        ]
    );
    assert!(files.contains_key("/srv/mirror/packages.html"));
    assert_eq!(files.len(), 2);
}

#[test]
fn failed_file_does_not_stop_the_files_beside_it() {
    let mut remote = HashMap::new();
    remote.insert(
        "https://example.org/simple/".to_string(),
        b"<a href=\"alpha\">alpha</a><a href=\"beta\">beta</a>".to_vec(),
    );
    remote.insert(
        "https://example.org/alpha".to_string(),
        b"<a href=\"f/a-1.whl\">a-1.whl</a><a href=\"f/a-2.whl\">a-2.whl</a>".to_vec(),
    );
    remote.insert("https://example.org/beta".to_string(), b"<a href=\"f/b-1.whl\">b-1.whl</a>".to_vec());
    remote.insert("https://example.org/f/a-2.whl".to_string(), vec![2]);
    remote.insert("https://example.org/f/b-1.whl".to_string(), vec![3]);
    let mut files = HashMap::new();
    let mut requests = Vec::new();
    let failures =
        mirror("https://example.org", "/d", &remote, &mut files, &mut requests).unwrap();
    assert_eq!(
        failures,
        vec![("a-1.whl: https://example.org/f/a-1.whl".to_string(), MirrorError::Fetch)]
    );
    assert_eq!(files.get("/d/a-1.whl"), None);
    assert_eq!(files.get("/d/a-2.whl"), Some(&vec![2]));
    assert_eq!(files.get("/d/b-1.whl"), Some(&vec![3]));
    assert!(requests.contains(&"https://example.org/f/a-1.whl".to_string()));
}

#[test]
fn second_run_fetches_pages_but_neither_index_nor_files() {
    let mut remote = HashMap::new();
    remote.insert("https://example.org/simple/".to_string(), b"<a href=\"alpha\">alpha</a>".to_vec());
    remote.insert("https://example.org/alpha".to_string(), b"<a href=\"a.whl\">a.whl</a>".to_vec());
    remote.insert("https://example.org/a.whl".to_string(), vec![1]);
    let mut files = HashMap::new();
    let mut requests = Vec::new();
    mirror("https://example.org", "/d", &remote, &mut files, &mut requests).unwrap();
    assert_eq!(requests.len(), 3);
    let before = files.clone();
    let mut again = Vec::new();
    let failures = mirror("https://example.org", "/d", &remote, &mut files, &mut again).unwrap();
    assert!(failures.is_empty());
    assert_eq!(again, vec!["https://example.org/alpha"]);
    assert_eq!(files, before);
}

#[test]
fn run_without_an_index_is_given_up() {
    let remote = HashMap::new();
    let mut files = HashMap::new();
    let mut requests = Vec::new();
    let outcome = mirror("https://example.org", "/d", &remote, &mut files, &mut requests);
    assert_eq!(outcome.unwrap_err(), MirrorError::Fetch);
    assert_eq!(requests, vec!["https://example.org/simple/"]);
    assert!(files.is_empty());
}
