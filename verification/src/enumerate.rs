//! The two enumerations of a mirror run: the packages that the index names,
//! and the files that a package page names.

use crate::error::MirrorError;
use crate::layout::{package_url, package_url_of};
use crate::links::{extract_links, extracted, links_model, Link, LinkModel};
use crate::html::{node_attribute, node_text};
use crate::links::{
    anchors_with_href, classified, law_one_link_per_anchor, link_at, target_attribute,
};
use crate::resolve::{has_scheme, lemma_scheme_stays, resolved_url};
use vstd::prelude::*;

verus! {

/// One file to download: the name it is stored under and the absolute URL it
/// is fetched from.
#[derive(Debug)]
pub struct FileDescriptor {
    pub name: String,
    pub url: String,
}

/// [`FileDescriptor`] as a mathematical value.
pub struct FileModel {
    pub name: Seq<char>,
    pub url: Seq<char>,
}

impl View for FileDescriptor {
    type V = FileModel;

    open spec fn view(&self) -> FileModel {
        FileModel { name: self.name@, url: self.url@ }
    }
}

impl Clone for FileDescriptor {
    fn clone(&self) -> (copy: Self)
        ensures
            copy@ == self@,
    {
        FileDescriptor { name: self.name.clone(), url: self.url.clone() }
    }
}

impl FileModel {
    /// The line that describes the file in reports: its name, a colon and a
    /// space, and its URL.
    pub open spec fn described(self) -> Seq<char> {
        self.name + ": "@ + self.url
    }
}

impl FileDescriptor {
    /// The line that describes the file in reports.
    pub fn describe(&self) -> (line: String)
        ensures
            line@ == self@.described(),
    {
        let mut line = self.name.clone();
        line.append(": ");
        line.append(self.url.as_str());
        line
    }
}

/// The models of a sequence of files, in the same order.
pub open spec fn files_model(files: Seq<FileDescriptor>) -> Seq<FileModel> {
    files.map_values(|file: FileDescriptor| file@)
}

/// Whether the URL of every file begins with a scheme.
pub open spec fn files_absolute(files: Seq<FileModel>) -> bool {
    forall|i: int| 0 <= i < files.len() ==> has_scheme(#[trigger] files[i].url)
}

/// Whether every one of some texts begins with a scheme.
pub open spec fn texts_absolute(texts: Seq<Seq<char>>) -> bool {
    forall|i: int| 0 <= i < texts.len() ==> has_scheme(#[trigger] texts[i])
}

/// The views of a sequence of texts, in the same order.
pub open spec fn texts_model(texts: Seq<String>) -> Seq<Seq<char>> {
    texts.map_values(|text: String| text@)
}

/// The package pages that the index `html` of the repository at `repo`
/// names: for each link of the index, its `href` as written, appended to
/// the repository root.
pub open spec fn listed_packages(html: Seq<char>, repo: Seq<char>) -> Result<
    Seq<Seq<char>>,
    MirrorError,
> {
    match extracted(html, repo) {
        Err(e) => Err(e),
        Ok(links) => Ok(links.map_values(|link: LinkModel| package_url_of(repo, link.href))),
    }
}

/// The files that the package page `html` names: for each link of the page,
/// its text as the file's name and its resolved URL.
pub open spec fn listed_versions(html: Seq<char>, base: Seq<char>) -> Result<
    Seq<FileModel>,
    MirrorError,
> {
    match extracted(html, base) {
        Err(e) => Err(e),
        Ok(links) => Ok(links.map_values(|link: LinkModel| FileModel { name: link.text, url: link.url })),
    }
}

/// A package URL under a root that begins with a scheme begins with that
/// scheme.
pub proof fn lemma_package_url_is_absolute(repo: Seq<char>, href: Seq<char>)
    requires
        has_scheme(repo),
    ensures
        has_scheme(package_url_of(repo, href)),
{
    lemma_scheme_stays(repo, "/"@);
    lemma_scheme_stays(repo + "/"@, href);
}

/// The URLs of the package pages named by the links of an index, in the
/// order of the links. Under a root that is an absolute URL, each of them is
/// one.
pub fn package_urls(links: &Vec<Link>, repo_url: &str) -> (urls: Vec<String>)
    ensures
        texts_model(urls@) == links_model(links@).map_values(
            |link: LinkModel| package_url_of(repo_url@, link.href),
        ),
        has_scheme(repo_url@) ==> texts_absolute(texts_model(urls@)),
{
    let mut urls: Vec<String> = Vec::new();
    let mut done: usize = 0;
    while done < links.len()
        invariant
            done <= links.len(),
            urls.len() == done,
            forall|i: int|
                0 <= i < done ==> (#[trigger] urls@[i])@ == package_url_of(
                    repo_url@,
                    links@[i].href@,
                ),
        decreases links.len() - done,
    {
        urls.push(package_url(repo_url, links[done].href.as_str()));
        done += 1;
    }
    assert(texts_model(urls@) =~= links_model(links@).map_values(
        |link: LinkModel| package_url_of(repo_url@, link.href),
    ));
    assert forall|i: int| 0 <= i < texts_model(urls@).len() && has_scheme(
        repo_url@,
    ) implies has_scheme(#[trigger] texts_model(urls@)[i]) by {
        lemma_package_url_is_absolute(repo_url@, links@[i].href@);
    }
    urls
}

/// The files named by the links of a package page.
pub fn files_of(links: &Vec<Link>) -> (files: Vec<FileDescriptor>)
    ensures
        files_model(files@) == links_model(links@).map_values(
            |link: LinkModel| FileModel { name: link.text, url: link.url },
        ),
{
    let mut files: Vec<FileDescriptor> = Vec::new();
    let mut done: usize = 0;
    while done < links.len()
        invariant
            done <= links.len(),
            files.len() == done,
            forall|i: int|
                0 <= i < done ==> (#[trigger] files@[i])@ == (FileModel {
                    name: links@[i].text@,
                    url: links@[i].url@,
                }),
        decreases links.len() - done,
    {
        files.push(
            FileDescriptor { name: links[done].text.clone(), url: links[done].url.clone() },
        );
        done += 1;
    }
    assert(files_model(files@) =~= links_model(links@).map_values(
        |link: LinkModel| FileModel { name: link.text, url: link.url },
    ));
    files
}

/// The package pages that an index names, in the order of the index: for
/// each anchor with an `href`, the `href` as written, appended to the
/// repository root. Under a root that is an absolute URL, each of them is
/// one. Fails as the link extraction fails, with nothing listed.
pub fn list_packages(index_html: &str, repo_url: &str) -> (listing: Result<Vec<String>, MirrorError>)
    ensures
        match listing {
            Ok(urls) => listed_packages(index_html@, repo_url@) == Ok::<
                Seq<Seq<char>>,
                MirrorError,
            >(texts_model(urls@)),
            Err(e) => listed_packages(index_html@, repo_url@) == Err::<Seq<Seq<char>>, MirrorError>(
                e,
            ),
        },
        listing matches Ok(urls) ==> (has_scheme(repo_url@) ==> texts_absolute(
            texts_model(urls@),
        )),
{
    match extract_links(index_html, repo_url) {
        Err(e) => Err(e),
        Ok(links) => Ok(package_urls(&links, repo_url)),
    }
}

/// The files that a package page names, in the order of the page: one for
/// each anchor with an `href`, under the anchor's text and with the `href`
/// resolved against `base_url`, so that every URL listed is absolute. Fails
/// as the link extraction fails, with nothing listed.
pub fn list_versions(page_html: &str, base_url: &str) -> (listing: Result<
    Vec<FileDescriptor>,
    MirrorError,
>)
    ensures
        match listing {
            Ok(files) => listed_versions(page_html@, base_url@) == Ok::<Seq<FileModel>, MirrorError>(
                files_model(files@),
            ),
            Err(e) => listed_versions(page_html@, base_url@) == Err::<Seq<FileModel>, MirrorError>(e),
        },
        listing matches Ok(files) ==> files_absolute(files_model(files@)),
{
    match extract_links(page_html, base_url) {
        Err(e) => Err(e),
        Ok(links) => {
            let files = files_of(&links);
            assert forall|i: int| 0 <= i < files_model(files@).len() implies has_scheme(
                #[trigger] files_model(files@)[i].url,
            ) by {
                assert(files_model(files@)[i].url == links_model(links@)[i].url);
            }
            Ok(files)
        },
    }
}

/// Under a repository root that is an absolute URL, every package page
/// listed has an absolute URL.
pub proof fn law_listed_packages_are_absolute(html: Seq<char>, repo: Seq<char>)
    requires
        has_scheme(repo),
        listed_packages(html, repo) is Ok,
    ensures
        texts_absolute(listed_packages(html, repo)->Ok_0),
{
    let links = extracted(html, repo)->Ok_0;
    assert forall|i: int| 0 <= i < listed_packages(html, repo)->Ok_0.len() implies has_scheme(
        #[trigger] listed_packages(html, repo)->Ok_0[i],
    ) by {
        lemma_package_url_is_absolute(repo, links[i].href);
    }
}

/// A successful listing names exactly one file for each anchor of the page
/// that carries an `href`, with or without a value, in the same order: the
/// file at a position has the text of the anchor at that position as its
/// name and that anchor's `href`, resolved against the base, as its URL.
/// None is dropped, merged or added.
pub proof fn law_one_file_per_anchor(html: Seq<char>, base: Seq<char>)
    requires
        listed_versions(html, base) is Ok,
    ensures
        listed_versions(html, base)->Ok_0.len() == anchors_with_href(html).len(),
        forall|i: int|
            0 <= i < listed_versions(html, base)->Ok_0.len() ==> node_text(
                html,
                #[trigger] anchors_with_href(html)[i],
            ) == Some(listed_versions(html, base)->Ok_0[i].name),
        forall|i: int|
            0 <= i < listed_versions(html, base)->Ok_0.len() ==> ((#[trigger] classified(
                node_attribute(html, anchors_with_href(html)[i], target_attribute()),
            )) matches Ok(Some(target)) && resolved_url(base, target) == Some(
                listed_versions(html, base)->Ok_0[i].url,
            )),
{
    law_one_link_per_anchor(html, base);
    let ids = anchors_with_href(html);
    let links = extracted(html, base)->Ok_0;
    assert forall|i: int| 0 <= i < listed_versions(html, base)->Ok_0.len() implies node_text(
        html,
        #[trigger] ids[i],
    ) == Some(listed_versions(html, base)->Ok_0[i].name) by {
        assert(link_at(html, ids[i], target_attribute(), base) == Ok::<
            Option<LinkModel>,
            MirrorError,
        >(Some(links[i])));
    }
    assert forall|i: int| 0 <= i < listed_versions(html, base)->Ok_0.len() implies ((
    #[trigger] classified(node_attribute(html, ids[i], target_attribute()))) matches Ok(
        Some(target),
    ) && resolved_url(base, target) == Some(listed_versions(html, base)->Ok_0[i].url)) by {
        assert(link_at(html, ids[i], target_attribute(), base) == Ok::<
            Option<LinkModel>,
            MirrorError,
        >(Some(links[i])));
    }
}

} // verus!
