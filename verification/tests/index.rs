use repo_mirror::error::MirrorError;
use repo_mirror::index::{IndexFlow, IndexRequest};
use std::collections::HashMap;

/// Files by path and responses by URL, with a count of the requests made.
struct Surroundings {
    files: HashMap<String, String>,
    remote: HashMap<String, String>,
    read_only: bool,
    requests: Vec<String>,
}

fn surroundings() -> Surroundings {
    Surroundings {
        files: HashMap::new(),
        remote: HashMap::new(),
        read_only: false,
        requests: Vec::new(),
    }
}

fn get_index(repo_url: &str, dest_dir: &str, around: &mut Surroundings) -> Result<String, MirrorError> {
    let mut flow = IndexFlow::new(repo_url, dest_dir);
    loop {
        flow = match flow.request() {
            IndexRequest::ReadCache { path } => {
                let cached = around.files.get(&path).cloned();
                flow.cache_read(cached)
            }
            IndexRequest::FetchIndex { url } => {
                around.requests.push(url.clone());
                let body = around.remote.get(&url).cloned();
                flow.fetched(body)
            }
            IndexRequest::WriteCache { path, body } => {
                let written = !around.read_only;
                if written {
                    around.files.insert(path, body.to_string());
                }
                flow.stored(written)
            }
            IndexRequest::Nothing => match flow.finish() {
                Ok(outcome) => return outcome,
                Err(_) => unreachable!(),
            },
        };
    }
}

#[test]
fn new_flow_asks_for_the_cache_file() {
    let flow = IndexFlow::new("https://example.org", "/srv/mirror");
    match flow.request() {
        IndexRequest::ReadCache { path } => assert_eq!(path, "/srv/mirror/packages.html"),
        other => panic!("unexpected request {:?}", other),
    }
    assert!(flow.finish().is_err());
}

#[test]
fn cached_index_ends_the_flow() {
    let flow = IndexFlow::new("https://example.org", "/srv/mirror")
        .cache_read(Some("<a href=\"alpha\">alpha</a>".to_string()));
    assert!(matches!(flow.request(), IndexRequest::Nothing));
    assert_eq!(flow.finish().unwrap().unwrap(), "<a href=\"alpha\">alpha</a>");
}

#[test]
fn missing_cache_asks_for_the_simple_index() {
    let flow = IndexFlow::new("https://example.org", "/srv/mirror").cache_read(None);
    match flow.request() {
        IndexRequest::FetchIndex { url } => assert_eq!(url, "https://example.org/simple/"),
        other => panic!("unexpected request {:?}", other),
    }
}

#[test]
fn fetched_index_is_written_to_the_cache_file() {
    let flow = IndexFlow::new("https://example.org", "/srv/mirror")
        .cache_read(None)
        .fetched(Some("<html>index</html>".to_string()));
    match flow.request() {
        IndexRequest::WriteCache { path, body } => {
            assert_eq!(path, "/srv/mirror/packages.html");
            assert_eq!(body, "<html>index</html>");
        }
        other => panic!("unexpected request {:?}", other),
    }
    let flow = flow.stored(true);
    assert!(matches!(flow.request(), IndexRequest::Nothing));
    assert_eq!(flow.finish().unwrap().unwrap(), "<html>index</html>");
}

#[test]
fn failed_fetch_is_a_fetch_error() {
    let flow = IndexFlow::new("https://example.org", "/srv/mirror").cache_read(None).fetched(None);
    assert!(matches!(flow.request(), IndexRequest::Nothing));
    assert_eq!(flow.finish().unwrap().unwrap_err(), MirrorError::Fetch);
}

#[test]
fn failed_write_is_a_persist_error() {
    let flow = IndexFlow::new("https://example.org", "/srv/mirror")
        .cache_read(None)
        .fetched(Some("body".to_string()))
        .stored(false);
    assert_eq!(flow.finish().unwrap().unwrap_err(), MirrorError::Persist);
}

#[test]
fn reports_out_of_turn_change_nothing() {
    let flow = IndexFlow::new("https://example.org", "/d")
        .fetched(Some("early".to_string()))
        .stored(true);
    assert!(matches!(flow.request(), IndexRequest::ReadCache { .. }));
    let flow = flow.cache_read(None).cache_read(Some("late".to_string())).stored(false);
    assert!(matches!(flow.request(), IndexRequest::FetchIndex { .. }));
    let flow = flow.fetched(Some("body".to_string())).fetched(None).cache_read(None);
    assert!(matches!(flow.request(), IndexRequest::WriteCache { .. }));
    let flow = flow.stored(true).stored(false).fetched(None).cache_read(None);
    assert_eq!(flow.finish().unwrap().unwrap(), "body");
}

#[test]
fn unfinished_flow_is_handed_back() {
    let flow = IndexFlow::new("https://example.org", "/d").cache_read(None);
    let flow = flow.finish().unwrap_err();
    assert!(matches!(flow.request(), IndexRequest::FetchIndex { .. }));
}

#[test]
fn second_retrieval_makes_no_request() {
    let mut around = surroundings();
    around
        .remote
        .insert("https://example.org/simple/".to_string(), "<a href=\"alpha\">alpha</a>".to_string());
    let first = get_index("https://example.org", "/srv/mirror", &mut around).unwrap();
    assert_eq!(around.requests, vec!["https://example.org/simple/"]);
    assert_eq!(around.files.get("/srv/mirror/packages.html"), Some(&first));
    around.remote.insert("https://example.org/simple/".to_string(), "changed".to_string());
    let second = get_index("https://example.org", "/srv/mirror", &mut around).unwrap();
    assert_eq!(second, first);
    assert_eq!(around.requests.len(), 1);
    assert_eq!(around.files.len(), 1);
}

#[test]
fn retrieval_into_another_directory_asks_again() {
    let mut around = surroundings();
    around.remote.insert("https://example.org/simple/".to_string(), "index".to_string());
    get_index("https://example.org", "/one", &mut around).unwrap();
    get_index("https://example.org", "/two", &mut around).unwrap();
    assert_eq!(around.requests.len(), 2);
    assert_eq!(around.files.get("/two/packages.html"), Some(&"index".to_string()));
}

#[test]
fn failed_retrieval_leaves_no_cache_file() {
    let mut around = surroundings();
    assert_eq!(
        get_index("https://example.org", "/srv/mirror", &mut around).unwrap_err(),
        MirrorError::Fetch
    );
    assert!(around.files.is_empty());
    around.remote.insert("https://example.org/simple/".to_string(), "index".to_string());
    around.read_only = true;
    assert_eq!(
        get_index("https://example.org", "/srv/mirror", &mut around).unwrap_err(),
        MirrorError::Persist
    );
    assert!(around.files.is_empty());
    assert_eq!(around.requests.len(), 2);
}
