//! A model of what surrounds a mirror run: the files under the destination
//! directory and the remote repository. The flows of this library never see
//! it. It is what their laws are stated over: a driver that answers a flow's
//! requests as this model does is a faithful one.

use vstd::prelude::*;

verus! {

/// The surroundings of a flow whose files and responses hold a `T`.
pub struct World<T> {
    /// The files that exist, by path, with what they hold.
    pub files: Map<Seq<char>, T>,
    /// The responses that the remote side gives with success, by URL.
    pub remote: Map<Seq<char>, T>,
    /// The paths at which writing fails.
    pub locked: Set<Seq<char>>,
    /// The URLs requested so far, oldest first.
    pub requested: Seq<Seq<char>>,
}

impl<T> World<T> {
    /// What the file at `path` holds, if it exists.
    pub open spec fn read(self, path: Seq<char>) -> Option<T> {
        if self.files.contains_key(path) {
            Some(self.files[path])
        } else {
            None
        }
    }

    /// Whether a file exists at `path`.
    pub open spec fn present(self, path: Seq<char>) -> bool {
        self.files.contains_key(path)
    }

    /// What requesting `url` gives, if the request succeeds.
    pub open spec fn response(self, url: Seq<char>) -> Option<T> {
        if self.remote.contains_key(url) {
            Some(self.remote[url])
        } else {
            None
        }
    }

    /// The surroundings after `url` was requested.
    pub open spec fn after_request(self, url: Seq<char>) -> Self {
        World { requested: self.requested.push(url), ..self }
    }

    /// Whether writing to `path` succeeds.
    pub open spec fn writable(self, path: Seq<char>) -> bool {
        !self.locked.contains(path)
    }

    /// The surroundings after an attempt to write `content` to `path`: the
    /// file holds it if the write succeeds, and nothing changes if it fails.
    pub open spec fn after_write(self, path: Seq<char>, content: T) -> Self {
        if self.writable(path) {
            World { files: self.files.insert(path, content), ..self }
        } else {
            self
        }
    }
}

} // verus!
