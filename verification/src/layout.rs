//! Where things live: the URLs under a repository root and the paths under a
//! destination directory.

use vstd::prelude::*;

verus! {

/// `first` and `second` with `separator` between them.
pub open spec fn joined(first: Seq<char>, separator: Seq<char>, second: Seq<char>) -> Seq<char> {
    first + separator + second
}

/// The path of the cached package index under `dest_dir`.
pub open spec fn index_cache_path_of(dest_dir: Seq<char>) -> Seq<char> {
    dest_dir + "/packages.html"@
}

/// The URL of the package index of the repository at `repo_url`.
pub open spec fn index_url_of(repo_url: Seq<char>) -> Seq<char> {
    repo_url + "/simple/"@
}

/// The URL of the page of the package that the index names by `href`: the
/// `href` as written, appended to the repository root.
pub open spec fn package_url_of(repo_url: Seq<char>, href: Seq<char>) -> Seq<char> {
    joined(repo_url, "/"@, href)
}

/// The path of the file `name` under `dest_dir`.
pub open spec fn download_path_of(dest_dir: Seq<char>, name: Seq<char>) -> Seq<char> {
    joined(dest_dir, "/"@, name)
}

/// The path at which a file is put together before it takes its place at
/// `path`.
pub open spec fn staging_path_of(path: Seq<char>) -> Seq<char> {
    path + ".part"@
}

/// Joins two texts with a separator.
pub fn join(first: &str, separator: &str, second: &str) -> (whole: String)
    ensures
        whole@ == joined(first@, separator@, second@),
{
    let mut whole = first.to_owned();
    whole.append(separator);
    whole.append(second);
    whole
}

/// The path of the cached package index under `dest_dir`.
pub fn index_cache_path(dest_dir: &str) -> (path: String)
    ensures
        path@ == index_cache_path_of(dest_dir@),
{
    let mut path = dest_dir.to_owned();
    path.append("/packages.html");
    path
}

/// The URL of the package index of the repository at `repo_url`.
pub fn index_url(repo_url: &str) -> (url: String)
    ensures
        url@ == index_url_of(repo_url@),
{
    let mut url = repo_url.to_owned();
    url.append("/simple/");
    url
}

/// The URL of the page of the package that the index names by `href`.
pub fn package_url(repo_url: &str, href: &str) -> (url: String)
    ensures
        url@ == package_url_of(repo_url@, href@),
{
    join(repo_url, "/", href)
}

/// The path of the file `name` under `dest_dir`.
pub fn download_path(dest_dir: &str, name: &str) -> (path: String)
    ensures
        path@ == download_path_of(dest_dir@, name@),
{
    join(dest_dir, "/", name)
}

/// The path at which a file is put together before it takes its place at
/// `path`.
pub fn staging_path(path: &str) -> (staging: String)
    ensures
        staging@ == staging_path_of(path@),
{
    let mut staging = path.to_owned();
    staging.append(".part");
    staging
}

} // verus!
