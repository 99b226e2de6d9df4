//! Link extraction: the anchors of an HTML page that carry an `href`, each
//! with its place in the page, its text, its `href` as written and the
//! absolute URL it denotes. Every such anchor gives one link, in the order
//! of the page, or the whole extraction fails.

use crate::error::MirrorError;
use crate::html::{
    dom_source, node_attribute, node_text, parse_document, read_attribute, read_text,
    select_nodes, selected_nodes, AttributeModel, AttributeReading,
};
use crate::resolve::{has_scheme, resolve_reference, resolved_url};
use vstd::prelude::*;
use vstd::utf8::{decode_utf8, encode_utf8, valid_utf8};

verus! {

/// One anchor of a page.
#[derive(Debug)]
pub struct Link {
    /// The place of the anchor in the parser's table of the page's nodes,
    /// which holds the nodes in the order in which they open in the page.
    pub node: u32,
    /// The text inside the anchor.
    pub text: String,
    /// The `href` as the page has it.
    pub href: String,
    /// The absolute URL that the `href` denotes on that page.
    pub url: String,
}

/// [`Link`] as a mathematical value.
pub struct LinkModel {
    pub node: u32,
    pub text: Seq<char>,
    pub href: Seq<char>,
    pub url: Seq<char>,
}

impl View for Link {
    type V = LinkModel;

    open spec fn view(&self) -> LinkModel {
        LinkModel { node: self.node, text: self.text@, href: self.href@, url: self.url@ }
    }
}

/// The models of a sequence of links, in the same order.
pub open spec fn links_model(links: Seq<Link>) -> Seq<LinkModel> {
    links.map_values(|link: Link| link@)
}

/// The selector of the anchors that carry an `href`.
pub open spec fn anchor_selector() -> Seq<char> {
    "a[href]"@
}

/// The name of the attribute that holds an anchor's target.
pub open spec fn target_attribute() -> Seq<char> {
    "href"@
}

/// What an attribute lookup means for the extraction: a node that is no tag
/// fails it, a tag that does not carry the attribute is passed over, an
/// attribute without a value is the empty target, and a value must be valid
/// UTF-8.
pub open spec fn classified(attribute: AttributeModel) -> Result<Option<Seq<char>>, MirrorError> {
    match attribute {
        AttributeModel::Missing => Err(MirrorError::Tag),
        AttributeModel::NotATag => Err(MirrorError::Tag),
        AttributeModel::Lacking => Ok(None),
        AttributeModel::Bare => Ok(Some(Seq::empty())),
        AttributeModel::Valued(bytes) => if valid_utf8(bytes) {
            Ok(Some(decode_utf8(bytes)))
        } else {
            Err(MirrorError::Encoding)
        },
    }
}

/// The link made of an anchor's place, its target, its text and the
/// resolved target. A target that does not resolve fails first, then a text
/// that could not be read.
pub open spec fn built(
    node: u32,
    href: Seq<char>,
    text: Option<Seq<char>>,
    resolved: Option<Seq<char>>,
) -> Result<LinkModel, MirrorError> {
    match resolved {
        None => Err(MirrorError::UrlResolution),
        Some(url) => match text {
            None => Err(MirrorError::Tag),
            Some(text) => Ok(LinkModel { node, text, href, url }),
        },
    }
}

/// What the node `id` of the page `html` contributes when its target is
/// looked for under `attribute`: a failure, nothing, or one link.
pub open spec fn link_at(html: Seq<char>, id: u32, attribute: Seq<char>, base: Seq<char>) -> Result<
    Option<LinkModel>,
    MirrorError,
> {
    match classified(node_attribute(html, id, attribute)) {
        Err(e) => Err(e),
        Ok(None) => Ok(None),
        Ok(Some(href)) => match built(id, href, node_text(html, id), resolved_url(base, href)) {
            Err(e) => Err(e),
            Ok(link) => Ok(Some(link)),
        },
    }
}

/// The links of the nodes `ids`, in that order; the first node that fails
/// fails the whole.
pub open spec fn links_among(
    html: Seq<char>,
    ids: Seq<u32>,
    attribute: Seq<char>,
    base: Seq<char>,
) -> Result<Seq<LinkModel>, MirrorError>
    decreases ids.len(),
{
    if ids.len() == 0 {
        Ok(Seq::empty())
    } else {
        match links_among(html, ids.drop_last(), attribute, base) {
            Err(e) => Err(e),
            Ok(before) => match link_at(html, ids.last(), attribute, base) {
                Err(e) => Err(e),
                Ok(None) => Ok(before),
                Ok(Some(link)) => Ok(before.push(link)),
            },
        }
    }
}

/// The outcome of reading links off the nodes that `selector` yields on the
/// page `html`, with their targets under `attribute`, against `base`. A page
/// of more bytes than a `u32` counts is not parsed.
pub open spec fn selected_links(
    html: Seq<char>,
    selector: Seq<char>,
    attribute: Seq<char>,
    base: Seq<char>,
) -> Result<Seq<LinkModel>, MirrorError> {
    if encode_utf8(html).len() > u32::MAX {
        Err(MirrorError::Parse)
    } else {
        match selected_nodes(html, selector) {
            None => Err(MirrorError::Selector),
            Some(ids) => links_among(html, ids, attribute, base),
        }
    }
}

/// The outcome of extracting the links of the page `html` against `base`.
pub open spec fn extracted(html: Seq<char>, base: Seq<char>) -> Result<Seq<LinkModel>, MirrorError> {
    selected_links(html, anchor_selector(), target_attribute(), base)
}

/// Whether the links stand in the order of their anchors in the page: each
/// anchor has a later place in the node table than the one before it.
pub open spec fn links_rising(links: Seq<LinkModel>) -> bool {
    forall|i: int, j: int| 0 <= i < j < links.len() ==> links[i].node < links[j].node
}

/// Whether the URL of every link begins with a scheme.
pub open spec fn links_absolute(links: Seq<LinkModel>) -> bool {
    forall|i: int| 0 <= i < links.len() ==> has_scheme(#[trigger] links[i].url)
}

/// Whether `outcome` is the exec form of `expected`.
pub open spec fn links_match(outcome: Result<Vec<Link>, MirrorError>, expected: Result<
    Seq<LinkModel>,
    MirrorError,
>) -> bool {
    match outcome {
        Ok(links) => expected == Ok::<Seq<LinkModel>, MirrorError>(links_model(links@)),
        Err(e) => expected == Err::<Seq<LinkModel>, MirrorError>(e),
    }
}

/// Reads an attribute lookup as the target of an anchor.
pub fn classify_attribute(reading: AttributeReading) -> (target: Result<Option<String>, MirrorError>)
    ensures
        match target {
            Ok(Some(href)) => classified(reading@) == Ok::<Option<Seq<char>>, MirrorError>(
                Some(href@),
            ),
            Ok(None) => classified(reading@) == Ok::<Option<Seq<char>>, MirrorError>(None),
            Err(e) => classified(reading@) == Err::<Option<Seq<char>>, MirrorError>(e),
        },
{
    match reading {
        AttributeReading::Missing => Err(MirrorError::Tag),
        AttributeReading::NotATag => Err(MirrorError::Tag),
        AttributeReading::Lacking => Ok(None),
        AttributeReading::Bare => Ok(Some(String::new())),
        AttributeReading::Valued(bytes) => match core::str::from_utf8(bytes.as_slice()) {
            Ok(href) => Ok(Some(href.to_owned())),
            Err(refusal) => Err(MirrorError::from(refusal)),
        },
    }
}

/// Puts a link together from an anchor's place, its target, its text as far
/// as it could be read, and what resolving the target gave.
pub fn build_link(
    node: u32,
    href: String,
    text: Option<String>,
    resolved: Result<String, url::ParseError>,
) -> (link: Result<Link, MirrorError>)
    ensures
        match link {
            Ok(made) => resolved matches Ok(url) && text matches Some(inner) && made.node == node
                && made.href == href && made.text == inner && made.url == url,
            Err(e) => if resolved is Err {
                e == MirrorError::UrlResolution
            } else {
                text is None && e == MirrorError::Tag
            },
        },
{
    match resolved {
        Err(refusal) => Err(MirrorError::from(refusal)),
        Ok(url) => match text {
            None => Err(MirrorError::Tag),
            Some(text) => Ok(Link { node, text, href, url }),
        },
    }
}

/// Adding one node to the nodes looked at adds what that node contributes.
pub proof fn lemma_links_among_next(
    html: Seq<char>,
    ids: Seq<u32>,
    count: int,
    attribute: Seq<char>,
    base: Seq<char>,
)
    requires
        0 <= count < ids.len(),
    ensures
        links_among(html, ids.take(count + 1), attribute, base) == match links_among(
            html,
            ids.take(count),
            attribute,
            base,
        ) {
            Err(e) => Err::<Seq<LinkModel>, MirrorError>(e),
            Ok(before) => match link_at(html, ids[count], attribute, base) {
                Err(e) => Err(e),
                Ok(None) => Ok(before),
                Ok(Some(link)) => Ok(before.push(link)),
            },
        },
{
    let longer = ids.take(count + 1);
    assert(longer.drop_last() == ids.take(count));
    assert(longer.last() == ids[count]);
}

/// A failure among the first nodes is the failure of the whole.
pub proof fn lemma_failure_stands(
    html: Seq<char>,
    ids: Seq<u32>,
    count: int,
    attribute: Seq<char>,
    base: Seq<char>,
)
    requires
        0 <= count <= ids.len(),
        links_among(html, ids.take(count), attribute, base) is Err,
    ensures
        links_among(html, ids, attribute, base) == links_among(
            html,
            ids.take(count),
            attribute,
            base,
        ),
    decreases ids.len() - count,
{
    if count == ids.len() {
        assert(ids.take(count) == ids);
    } else {
        lemma_links_among_next(html, ids, count, attribute, base);
        lemma_failure_stands(html, ids, count + 1, attribute, base);
    }
}

/// Reads links off the nodes that `selector` yields on a page, in the order
/// in which it yields them, with their targets under `attribute`.
///
/// Every selected tag that carries `attribute` gives one link: its place in
/// the page, the text inside it, the target as written, which is empty where
/// the attribute has no value, and the target resolved against `base_url`.
/// A selected tag that does not carry the attribute is passed over. The
/// first selected node, in that order, that is no tag, whose target is not
/// valid UTF-8 or whose target does not resolve fails the call. The links
/// come out in the order in which their tags open in the page.
pub fn select_links(html: &str, selector: &str, attribute: &str, base_url: &str) -> (outcome:
    Result<Vec<Link>, MirrorError>)
    ensures
        links_match(outcome, selected_links(html@, selector@, attribute@, base_url@)),
        outcome matches Ok(links) ==> links_absolute(links_model(links@)),
        outcome matches Ok(links) ==> links_rising(links_model(links@)),
{
    let dom = match parse_document(html) {
        Ok(dom) => dom,
        Err(refusal) => {
            return Err(MirrorError::from(refusal));
        },
    };
    let ids = match select_nodes(&dom, selector) {
        Some(ids) => ids,
        None => {
            return Err(MirrorError::Selector);
        },
    };
    let mut links: Vec<Link> = Vec::new();
    let mut done: usize = 0;
    assert(ids@.take(0) == Seq::<u32>::empty());
    assert(links_model(links@) == Seq::<LinkModel>::empty());
    while done < ids.len()
        invariant
            done <= ids.len(),
            dom_source(dom) == html@,
            encode_utf8(html@).len() <= u32::MAX,
            selected_nodes(html@, selector@) == Some(ids@),
            links_among(html@, ids@.take(done as int), attribute@, base_url@) == Ok::<
                Seq<LinkModel>,
                MirrorError,
            >(links_model(links@)),
            links_absolute(links_model(links@)),
            links_rising(links_model(links@)),
            forall|i: int, j: int| 0 <= i < j < ids@.len() ==> ids@[i] < ids@[j],
            forall|k: int, m: int|
                0 <= k < links@.len() && done <= m < ids@.len() ==> #[trigger] links_model(
                    links@,
                )[k].node < #[trigger] ids@[m],
        decreases ids.len() - done,
    {
        let id = ids[done];
        proof {
            lemma_links_among_next(html@, ids@, done as int, attribute@, base_url@);
        }
        match classify_attribute(read_attribute(&dom, id, attribute)) {
            Err(e) => {
                proof {
                    lemma_failure_stands(html@, ids@, done + 1, attribute@, base_url@);
                }
                return Err(e);
            },
            Ok(None) => {},
            Ok(Some(href)) => {
                let text = read_text(&dom, id);
                let resolved = resolve_reference(base_url, href.as_str());
                match build_link(id, href, text, resolved) {
                    Err(e) => {
                        proof {
                            lemma_failure_stands(html@, ids@, done + 1, attribute@, base_url@);
                        }
                        return Err(e);
                    },
                    Ok(link) => {
                        let ghost before = links_model(links@);
                        links.push(link);
                        assert(links_model(links@) == before.push(link@));
                    },
                }
            },
        }
        done += 1;
    }
    assert(ids@.take(done as int) == ids@);
    Ok(links)
}

/// The links of a page, in the order of its anchors.
///
/// Every anchor with an `href` gives one link: its place in the page, its
/// text, the `href` as written, and the `href` resolved against `base_url`,
/// which is an absolute URL. An `href` without a value is the empty `href`,
/// which resolves to the base without its fragment. The first anchor, in
/// page order, whose `href` is not valid UTF-8 or does not resolve fails the
/// call, and no link is returned.
pub fn extract_links(html: &str, base_url: &str) -> (outcome: Result<Vec<Link>, MirrorError>)
    ensures
        links_match(outcome, extracted(html@, base_url@)),
        outcome matches Ok(links) ==> links_absolute(links_model(links@)),
        outcome matches Ok(links) ==> links_rising(links_model(links@)),
{
    select_links(html, "a[href]", "href", base_url)
}

/// Among the nodes `ids`, those that carry `attribute`, with or without a
/// value, in the same order.
pub open spec fn carrying(html: Seq<char>, ids: Seq<u32>, attribute: Seq<char>) -> Seq<u32>
    decreases ids.len(),
{
    if ids.len() == 0 {
        Seq::empty()
    } else {
        let before = carrying(html, ids.drop_last(), attribute);
        if node_attribute(html, ids.last(), attribute) is Lacking {
            before
        } else {
            before.push(ids.last())
        }
    }
}

/// Where none of the nodes lacks the attribute, all of them carry it.
pub proof fn lemma_carrying_all(html: Seq<char>, ids: Seq<u32>, attribute: Seq<char>)
    requires
        forall|i: int| 0 <= i < ids.len() ==> !(#[trigger] node_attribute(html, ids[i], attribute)
            is Lacking),
    ensures
        carrying(html, ids, attribute) == ids,
    decreases ids.len(),
{
    if ids.len() > 0 {
        let front = ids.drop_last();
        assert forall|i: int| 0 <= i < front.len() implies !(#[trigger] node_attribute(
            html,
            front[i],
            attribute,
        ) is Lacking) by {
            assert(front[i] == ids[i]);
        }
        lemma_carrying_all(html, front, attribute);
        assert(!(node_attribute(html, ids[ids.len() - 1], attribute) is Lacking));
        assert(front.push(ids.last()) == ids);
    } else {
        assert(ids == Seq::<u32>::empty());
    }
}

/// Where the reading succeeds, the links stand one to one beside the nodes
/// that carry the attribute: the link at a position is what the carrying
/// node at that position contributes.
pub proof fn lemma_links_among_whole(
    html: Seq<char>,
    ids: Seq<u32>,
    attribute: Seq<char>,
    base: Seq<char>,
)
    requires
        links_among(html, ids, attribute, base) is Ok,
    ensures
        links_among(html, ids, attribute, base)->Ok_0.len() == carrying(
            html,
            ids,
            attribute,
        ).len(),
        forall|i: int|
            0 <= i < carrying(html, ids, attribute).len() ==> #[trigger] link_at(
                html,
                carrying(html, ids, attribute)[i],
                attribute,
                base,
            ) == Ok::<Option<LinkModel>, MirrorError>(
                Some(links_among(html, ids, attribute, base)->Ok_0[i]),
            ),
    decreases ids.len(),
{
    if ids.len() > 0 {
        let front = ids.drop_last();
        lemma_links_among_whole(html, front, attribute, base);
        let before = carrying(html, front, attribute);
        let whole = links_among(html, ids, attribute, base)->Ok_0;
        assert forall|i: int| 0 <= i < carrying(html, ids, attribute).len() implies #[trigger] link_at(
            html,
            carrying(html, ids, attribute)[i],
            attribute,
            base,
        ) == Ok::<Option<LinkModel>, MirrorError>(Some(whole[i])) by {
            if i < before.len() {
                assert(carrying(html, ids, attribute)[i] == before[i]);
                assert(link_at(html, before[i], attribute, base) == Ok::<
                    Option<LinkModel>,
                    MirrorError,
                >(Some(links_among(html, front, attribute, base)->Ok_0[i])));
            }
        }
    }
}

/// The anchors of the page `html` that carry an `href`, by their places in
/// the page, in the order in which the selector yields them; none where the
/// selector is refused.
pub open spec fn anchors_with_href(html: Seq<char>) -> Seq<u32> {
    match selected_nodes(html, anchor_selector()) {
        Some(ids) => carrying(html, ids, target_attribute()),
        None => Seq::empty(),
    }
}

/// A successful extraction returns exactly one link for each anchor that
/// carries an `href`, with or without a value, in the same order: the link
/// at a position is what the anchor at that position contributes, and it
/// holds that anchor's place in the page. None is dropped, merged or added.
pub proof fn law_one_link_per_anchor(html: Seq<char>, base: Seq<char>)
    requires
        extracted(html, base) is Ok,
    ensures
        extracted(html, base)->Ok_0.len() == anchors_with_href(html).len(),
        forall|i: int|
            0 <= i < extracted(html, base)->Ok_0.len() ==> #[trigger] link_at(
                html,
                anchors_with_href(html)[i],
                target_attribute(),
                base,
            ) == Ok::<Option<LinkModel>, MirrorError>(Some(extracted(html, base)->Ok_0[i])),
        forall|i: int|
            0 <= i < extracted(html, base)->Ok_0.len() ==> (#[trigger] extracted(
                html,
                base,
            )->Ok_0[i]).node == anchors_with_href(html)[i],
{
    let ids = selected_nodes(html, anchor_selector())->Some_0;
    lemma_links_among_whole(html, ids, target_attribute(), base);
    assert forall|i: int| 0 <= i < extracted(html, base)->Ok_0.len() implies (#[trigger] extracted(
        html,
        base,
    )->Ok_0[i]).node == anchors_with_href(html)[i] by {
        assert(link_at(html, anchors_with_href(html)[i], target_attribute(), base) == Ok::<
            Option<LinkModel>,
            MirrorError,
        >(Some(extracted(html, base)->Ok_0[i])));
    }
}

/// Where the selector yields no node that lacks an `href`, as the parser has
/// it, the anchors that carry an `href` are all the nodes that the selector
/// yields.
pub proof fn law_selected_anchors_carry_href(html: Seq<char>)
    requires
        selected_nodes(html, anchor_selector()) is Some,
        forall|i: int|
            0 <= i < selected_nodes(html, anchor_selector())->Some_0.len()
                ==> !(#[trigger] node_attribute(
                html,
                selected_nodes(html, anchor_selector())->Some_0[i],
                target_attribute(),
            ) is Lacking),
    ensures
        anchors_with_href(html) == selected_nodes(html, anchor_selector())->Some_0,
{
    lemma_carrying_all(html, selected_nodes(html, anchor_selector())->Some_0, target_attribute());
}

/// Every link among `ids` holds its target resolved against `base`.
pub proof fn lemma_links_among_resolved(
    html: Seq<char>,
    ids: Seq<u32>,
    attribute: Seq<char>,
    base: Seq<char>,
)
    requires
        links_among(html, ids, attribute, base) is Ok,
    ensures
        forall|i: int|
            0 <= i < links_among(html, ids, attribute, base)->Ok_0.len() ==> resolved_url(
                base,
                (#[trigger] links_among(html, ids, attribute, base)->Ok_0[i]).href,
            ) == Some(links_among(html, ids, attribute, base)->Ok_0[i].url),
    decreases ids.len(),
{
    if ids.len() > 0 {
        lemma_links_among_resolved(html, ids.drop_last(), attribute, base);
    }
}

/// The URL of every extracted link is its `href` resolved against the base
/// URL by the rules of the URL standard.
pub proof fn law_links_are_resolved(html: Seq<char>, base: Seq<char>)
    requires
        extracted(html, base) is Ok,
    ensures
        forall|i: int|
            0 <= i < extracted(html, base)->Ok_0.len() ==> resolved_url(
                base,
                (#[trigger] extracted(html, base)->Ok_0[i]).href,
            ) == Some(extracted(html, base)->Ok_0[i].url),
{
    lemma_links_among_resolved(
        html,
        selected_nodes(html, anchor_selector())->Some_0,
        target_attribute(),
        base,
    );
}

} // verus!
