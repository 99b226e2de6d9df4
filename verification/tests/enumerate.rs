use repo_mirror::enumerate::{files_of, list_packages, list_versions, package_urls, FileDescriptor};
use repo_mirror::error::MirrorError;
use repo_mirror::links::Link;

fn link(text: &str, href: &str, url: &str) -> Link {
    Link { node: 0, text: text.to_string(), href: href.to_string(), url: url.to_string() }
}

fn begins_with_a_scheme(url: &str) -> bool {
    let Some(colon) = url.find(':') else {
        return false;
    };
    colon >= 1
        && url.as_bytes()[0].is_ascii_alphabetic()
        && url[1..colon]
            .bytes()
            .all(|c| c.is_ascii_alphanumeric() || c == b'+' || c == b'-' || c == b'.')
}

#[test]
fn list_versions_names_a_file_for_a_bare_href() {
    let files = list_versions("<a href>x</a>", "https://example.org/simple/x/").unwrap();
    assert_eq!(files.len(), 1);
    assert_eq!(files[0].name, "x");
    assert_eq!(files[0].url, "https://example.org/simple/x/");
}

#[test]
fn list_versions_names_one_file_for_each_anchor_with_href() {
    let page = "<a href=\"b.whl\">b.whl</a><a name=\"skip\">none</a><a href>bare</a>\
        <a href=\"\">empty</a><a href=\"b.whl\">b.whl</a><p><a href=\"a.whl\">a.whl</a></p>";
    let files = list_versions(page, "https://example.org/f/").unwrap();
    let names: Vec<&str> = files.iter().map(|file| file.name.as_str()).collect();
    assert_eq!(names, vec!["b.whl", "bare", "empty", "b.whl", "a.whl"]);
    let urls: Vec<&str> = files.iter().map(|file| file.url.as_str()).collect();
    assert_eq!(
        urls,
        vec![
            "https://example.org/f/b.whl",
            "https://example.org/f/",
            "https://example.org/f/",
            "https://example.org/f/b.whl",
            "https://example.org/f/a.whl",
        ]
    );
}

#[test]
fn list_packages_names_a_package_for_a_bare_href() {
    let packages = list_packages("<a href>x</a><a href=\"y\">y</a>", "https://example.org").unwrap();
    assert_eq!(packages, vec!["https://example.org/", "https://example.org/y"]);
}

#[test]
fn packages_under_an_absolute_root_are_absolute() {
    let index = "<a href=\"alpha\">alpha</a><a href=\"/x\">x</a><a href=\"../y\">y</a>\
        <a href=\"https://other.org/z\">z</a><a href>bare</a>";
    for root in ["https://example.org", "HTTP://Example.org/root", "file:///srv/repo"] {
        let packages = list_packages(index, root).unwrap();
        assert_eq!(packages.len(), 5);
        for package in &packages {
            assert!(begins_with_a_scheme(package), "{} has no scheme", package);
            assert!(package.starts_with(root));
        }
    }
}

#[test]
fn list_packages_appends_each_href_to_the_root() {
    let index = "<html><body><a href=\"alpha\">alpha</a><a href=\"beta\">beta</a></body></html>";
    let packages = list_packages(index, "https://example.org").unwrap();
    assert_eq!(packages, vec!["https://example.org/alpha", "https://example.org/beta"]);
}

#[test]
fn list_packages_uses_the_href_not_the_resolved_url() {
    let index = "<a href=\"/simple/alpha/\">alpha</a><a href=\"../beta/\">beta</a>";
    let packages = list_packages(index, "https://example.org/root").unwrap();
    assert_eq!(
        packages,
        vec!["https://example.org/root//simple/alpha/", "https://example.org/root/../beta/"]
    );
}

#[test]
fn list_packages_of_an_empty_index_is_empty() {
    assert_eq!(list_packages("<html></html>", "https://example.org").unwrap().len(), 0);
}

#[test]
fn list_packages_fails_as_a_whole() {
    let index = "<a href=\"alpha\">alpha</a><a href=\"https://[::1/\">broken</a>";
    assert_eq!(
        list_packages(index, "https://example.org").unwrap_err(),
        MirrorError::UrlResolution
    );
    assert_eq!(
        list_packages("<a href=\"alpha\">alpha</a>", "example.org").unwrap_err(),
        MirrorError::UrlResolution
    );
}

#[test]
fn list_versions_names_each_file_by_its_anchor_text() {
    let page = "<html><body>\
        <a href=\"../../packages/a/alpha-1.0.tar.gz#sha256=00\">alpha-1.0.tar.gz</a><br/>\
        <a href=\"https://files.example.net/alpha-1.1-py3-none-any.whl\">alpha-1.1-py3-none-any.whl</a>\
        </body></html>";
    let files = list_versions(page, "https://example.org/simple/alpha/").unwrap();
    assert_eq!(files.len(), 2);
    assert_eq!(files[0].name, "alpha-1.0.tar.gz");
    assert_eq!(files[0].url, "https://example.org/packages/a/alpha-1.0.tar.gz#sha256=00");
    assert_eq!(files[1].name, "alpha-1.1-py3-none-any.whl");
    assert_eq!(files[1].url, "https://files.example.net/alpha-1.1-py3-none-any.whl");
}

#[test]
fn list_versions_of_a_page_without_anchors_is_empty() {
    assert_eq!(list_versions("<p>nothing</p>", "https://example.org").unwrap().len(), 0);
}

#[test]
fn list_versions_fails_as_the_extraction_fails() {
    assert_eq!(
        list_versions("<a href=\"x\">x</a>", "no base").unwrap_err(),
        MirrorError::UrlResolution
    );
}

#[test]
fn package_urls_keep_the_order_of_the_links() {
    let links = vec![
        link("b", "b/", "https://example.org/simple/b/"),
        link("a", "a/", "https://example.org/simple/a/"),
    ];
    assert_eq!(
        package_urls(&links, "https://example.org"),
        vec!["https://example.org/b/", "https://example.org/a/"]
    );
    assert_eq!(package_urls(&Vec::new(), "https://example.org").len(), 0);
}

#[test]
fn files_of_take_text_and_url() {
    let links = vec![
        link("one.whl", "one.whl", "https://example.org/one.whl"),
        link("two.whl", "../two.whl", "https://example.org/two.whl"),
    ];
    let files = files_of(&links);
    assert_eq!(files.len(), 2);
    assert_eq!(files[0].name, "one.whl");
    assert_eq!(files[0].url, "https://example.org/one.whl");
    assert_eq!(files[1].name, "two.whl");
    assert_eq!(files[1].url, "https://example.org/two.whl");
}

#[test]
fn describe_is_name_colon_url() {
    let file = FileDescriptor {
        name: "alpha-1.0.tar.gz".to_string(),
        url: "https://example.org/alpha-1.0.tar.gz".to_string(),
    };
    assert_eq!(file.describe(), "alpha-1.0.tar.gz: https://example.org/alpha-1.0.tar.gz");
}

#[test]
fn clone_keeps_both_fields() {
    let file = FileDescriptor { name: "n".to_string(), url: "u".to_string() };
    let copy = file.clone();
    assert_eq!(copy.name, "n");
    assert_eq!(copy.url, "u");
}
