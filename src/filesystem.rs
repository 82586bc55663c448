//! Filesystem entries and change events as the library presents them.

use vstd::prelude::*;
use vstd::string::StringSliceAdditionalSpecFns;
use vstd::utf8::{decode_utf8, valid_utf8};
use crate::error::{SandboxError, ErrorKind};

verus! {

/// Kind of a directory entry.
#[derive(Debug, Clone, Copy, PartialEq, Eq, Structural)]
pub enum FileType {
    File,
    Dir,
}

/// A directory entry; its kind is absent when the server reports one that
/// is not known.
#[derive(Debug, Clone)]
pub struct EntryInfo {
    pub name: String,
    pub file_type: Option<FileType>,
    pub path: String,
}

/// One file of a batch write.
#[derive(Debug, Clone)]
pub struct WriteEntry {
    pub path: String,
    pub data: Vec<u8>,
}

impl WriteEntry {
    /// An entry that writes `data` at `path`.
    pub fn new(path: &str, data: Vec<u8>) -> (r: Self)
        ensures
            r.path@ == path@,
            r.data@ == data@,
    {
        WriteEntry { path: String::from_str(path), data }
    }

    /// An entry that writes the UTF-8 bytes of `content` at `path`.
    pub fn from_str(path: &str, content: &str) -> (r: Self)
        ensures
            r.path@ == path@,
            r.data@ == content.spec_bytes(),
    {
        WriteEntry { path: String::from_str(path), data: content.as_bytes_vec() }
    }
}

/// Kind of a filesystem change.
#[derive(Debug, Clone, Copy, PartialEq, Eq, Structural)]
pub enum FilesystemEventType {
    Chmod,
    Create,
    Remove,
    Rename,
    Write,
}

/// A change under a watched directory.
#[derive(Debug, Clone)]
pub struct FilesystemEvent {
    pub name: String,
    pub event_type: FilesystemEventType,
}

/// Relies on `String::from_utf8`: the text of valid UTF-8, and nothing for
/// invalid input.
#[verifier::external_body]
fn utf8_strict(b: Vec<u8>) -> (r: Option<String>)
    ensures
        r is Some == valid_utf8(b@),
        r matches Some(s) ==> s@ == decode_utf8(b@),
{
    String::from_utf8(b).ok()
}

/// The text of a file's bytes: an invalid-argument error when they are
/// not valid UTF-8.
pub fn text_from_bytes(bytes: Vec<u8>) -> (r: Result<String, SandboxError>)
    ensures
        valid_utf8(bytes@) ==> (r matches Ok(s) && s@ == decode_utf8(bytes@)),
        !valid_utf8(bytes@) ==> (r matches Err(e) && e.spec_kind() == ErrorKind::InvalidArgument),
{
    match utf8_strict(bytes) {
        Some(s) => Ok(s),
        None => Err(SandboxError::invalid_argument("Invalid UTF-8")),
    }
}

} // verus!
