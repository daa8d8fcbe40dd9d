//! The payload that is installed: one archive and the name of what it holds.

use vstd::prelude::*;
use vstd::string::StringExecFns;

verus! {

/// What a payload holds, as plain values.
pub struct PayloadView {
    pub bytes: Seq<u8>,
    pub logical_name: Seq<char>,
}

/// The archive to install and the name of the product in it. It is made once
/// and never changed.
#[derive(Debug)]
pub struct ArchivePayload {
    bytes: Vec<u8>,
    logical_name: String,
}

impl View for ArchivePayload {
    type V = PayloadView;

    closed spec fn view(&self) -> PayloadView {
        PayloadView { bytes: self.bytes@, logical_name: self.logical_name@ }
    }
}

/// The name of the file in which the archive of the product `logical_name`
/// lies while it is installed.
pub open spec fn archive_name_of(logical_name: Seq<char>) -> Seq<char> {
    logical_name + ".zip"@
}

impl ArchivePayload {
    /// The payload made of the archive `bytes` and the product's name.
    pub fn new(bytes: Vec<u8>, logical_name: String) -> (r: ArchivePayload)
        ensures
            r@.bytes == bytes@,
            r@.logical_name == logical_name@,
    {
        ArchivePayload { bytes, logical_name }
    }

    /// The archive.
    pub fn bytes(&self) -> (r: &Vec<u8>)
        ensures
            r@ == self@.bytes,
    {
        &self.bytes
    }

    /// The name of the product.
    pub fn logical_name(&self) -> (r: &str)
        ensures
            r@ == self@.logical_name,
    {
        self.logical_name.as_str()
    }

    /// The name of the temporary archive file.
    pub fn archive_name(&self) -> (r: String)
        ensures
            r@ == archive_name_of(self@.logical_name),
    {
        self.logical_name.clone().concat(".zip")
    }
}

} // verus!
