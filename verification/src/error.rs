//! The ways in which a step of a mirror run can fail.

use vstd::prelude::*;

verus! {

/// The kind of a failure. Context (the URL or the file name concerned) is
/// kept beside it by whoever records the failure.
#[derive(Clone, Copy, Debug, PartialEq, Eq, Structural)]
pub enum MirrorError {
    /// A remote request did not end in a successful response.
    Fetch,
    /// The HTML parser refused the document.
    Parse,
    /// The HTML parser refused the selector.
    Selector,
    /// A selected node could not be read back from the document as a tag.
    Tag,
    /// The target of a link is not valid UTF-8.
    Encoding,
    /// The target of a link could not be resolved against the base URL.
    UrlResolution,
    /// A file could not be written.
    Persist,
}

impl MirrorError {
    /// A short description for reports.
    pub fn message(&self) -> (text: &'static str)
        ensures
            text@ == Self::message_of(*self),
    {
        match self {
            MirrorError::Fetch => "remote request failed",
            MirrorError::Parse => "document could not be parsed as HTML",
            MirrorError::Selector => "selector was refused",
            MirrorError::Tag => "selected node is not a tag",
            MirrorError::Encoding => "link target is not valid UTF-8",
            MirrorError::UrlResolution => "link target could not be resolved against the base URL",
            MirrorError::Persist => "file could not be written",
        }
    }

    /// The text that [`MirrorError::message`] returns.
    pub open spec fn message_of(kind: MirrorError) -> Seq<char> {
        match kind {
            MirrorError::Fetch => "remote request failed"@,
            MirrorError::Parse => "document could not be parsed as HTML"@,
            MirrorError::Selector => "selector was refused"@,
            MirrorError::Tag => "selected node is not a tag"@,
            MirrorError::Encoding => "link target is not valid UTF-8"@,
            MirrorError::UrlResolution => "link target could not be resolved against the base URL"@,
            MirrorError::Persist => "file could not be written"@,
        }
    }
}

impl From<tl::ParseError> for MirrorError {
    /// A document that the HTML parser refuses is a parse failure.
    fn from(refusal: tl::ParseError) -> (kind: MirrorError) {
        MirrorError::Parse
    }
}

impl vstd::std_specs::convert::FromSpecImpl<tl::ParseError> for MirrorError {
    open spec fn obeys_from_spec() -> bool {
        true
    }

    open spec fn from_spec(refusal: tl::ParseError) -> MirrorError {
        MirrorError::Parse
    }
}

impl From<core::str::Utf8Error> for MirrorError {
    /// Bytes that are not UTF-8 are an encoding failure.
    fn from(refusal: core::str::Utf8Error) -> (kind: MirrorError) {
        MirrorError::Encoding
    }
}

impl vstd::std_specs::convert::FromSpecImpl<core::str::Utf8Error> for MirrorError {
    open spec fn obeys_from_spec() -> bool {
        true
    }

    open spec fn from_spec(refusal: core::str::Utf8Error) -> MirrorError {
        MirrorError::Encoding
    }
}

impl From<url::ParseError> for MirrorError {
    /// A text that the URL parser refuses is a resolution failure.
    fn from(refusal: url::ParseError) -> (kind: MirrorError) {
        MirrorError::UrlResolution
    }
}

impl vstd::std_specs::convert::FromSpecImpl<url::ParseError> for MirrorError {
    open spec fn obeys_from_spec() -> bool {
        true
    }

    open spec fn from_spec(refusal: url::ParseError) -> MirrorError {
        MirrorError::UrlResolution
    }
}

} // verus!
