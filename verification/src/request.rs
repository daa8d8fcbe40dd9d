//! A request to install into one destination, and the paths that follow
//! from it.

use vstd::prelude::*;
use crate::store::{archive_name_of, ArchivePayload};
use crate::text::{join, joined};

verus! {

/// What a request holds, as plain values.
pub struct RequestView {
    /// The destination, as it was submitted.
    pub destination: Seq<char>,
    /// The directory that holds the destination, if the destination has one.
    pub parent: Option<Seq<char>>,
}

/// A request to install into one destination. It is made from the path that
/// the user submitted and never changed.
#[derive(Debug, PartialEq, Eq)]
pub struct InstallRequest {
    destination_path: String,
    parent: Option<String>,
}

/// The text of a string that may be missing.
pub open spec fn text_of(s: Option<String>) -> Option<Seq<char>> {
    match s {
        Some(s) => Some(s@),
        None => None,
    }
}

impl View for InstallRequest {
    type V = RequestView;

    closed spec fn view(&self) -> RequestView {
        RequestView { destination: self.destination_path@, parent: text_of(self.parent) }
    }
}

impl RequestView {
    /// Where the archive lies while it is installed: beside the destination,
    /// in its parent, under the archive's name. None if there is no parent.
    pub open spec fn archive_path(self, logical_name: Seq<char>) -> Option<Seq<char>> {
        match self.parent {
            Some(parent) => Some(joined(parent, archive_name_of(logical_name))),
            None => None,
        }
    }

    /// The directory of the installed binaries: `bin` in the destination.
    pub open spec fn binary_dir(self) -> Seq<char> {
        joined(self.destination, "bin"@)
    }
}

/// `std::path::Path::parent` of the standard library, on a path given as
/// text: the path without its last component, if it has one. All that is
/// claimed of it is that the empty path has no parent.
#[verifier::external_body]
fn parent_of(path: &str) -> (r: Option<String>)
    ensures
        path@.len() == 0 ==> r is None,
{
    match std::path::Path::new(path).parent() {
        Some(dir) => Some(dir.to_string_lossy().into_owned()),
        None => None,
    }
}

impl InstallRequest {
    /// The request for `destination` whose parent directory is `parent`.
    pub fn with_parent(destination: &str, parent: Option<String>) -> (r: InstallRequest)
        ensures
            r@.destination == destination@,
            r@.parent == text_of(parent),
    {
        InstallRequest { destination_path: destination.to_owned(), parent }
    }

    /// The request for `destination`, with the parent directory that the
    /// path itself names.
    pub fn new(destination: &str) -> (r: InstallRequest)
        ensures
            r@.destination == destination@,
            destination@.len() == 0 ==> r@.parent is None,
    {
        InstallRequest::with_parent(destination, parent_of(destination))
    }

    /// The destination, as it was submitted.
    pub fn destination_path(&self) -> (r: &str)
        ensures
            r@ == self@.destination,
    {
        self.destination_path.as_str()
    }

    /// The directory that holds the destination.
    pub fn parent(&self) -> (r: Option<&str>)
        ensures
            r is Some == self@.parent is Some,
            r is Some ==> r.unwrap()@ == self@.parent.unwrap(),
    {
        match &self.parent {
            Some(dir) => Some(dir.as_str()),
            None => None,
        }
    }

    /// Whether this request and `other` name the same destination.
    pub fn same_destination(&self, other: &InstallRequest) -> (r: bool)
        ensures
            r == (self@.destination == other@.destination),
    {
        self.destination_path == other.destination_path
    }

    /// Where to write the archive of `payload` while it is installed.
    pub fn archive_path(&self, payload: &ArchivePayload) -> (r: Option<String>)
        ensures
            text_of(r) == self@.archive_path(payload@.logical_name),
    {
        match &self.parent {
            Some(dir) => {
                let name = payload.archive_name();
                Some(join(dir.as_str(), name.as_str()))
            },
            None => None,
        }
    }

    /// The directory to put on the search path once the payload is installed.
    pub fn binary_dir(&self) -> (r: String)
        ensures
            r@ == self@.binary_dir(),
    {
        join(self.destination_path.as_str(), "bin")
    }
}

impl Clone for InstallRequest {
    fn clone(&self) -> (r: InstallRequest)
        ensures
            r@ == self@,
    {
        let parent = match &self.parent {
            Some(dir) => Some(dir.clone()),
            None => None,
        };
        InstallRequest { destination_path: self.destination_path.clone(), parent }
    }
}

} // verus!
