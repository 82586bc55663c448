//! Messages of the `filesystem.Filesystem` service.

use vstd::prelude::*;

verus! {

#[derive(Debug, Clone)]
pub struct ListDirRequest {
    pub path: String,
    pub depth: u32,
}

#[derive(Debug, Clone)]
pub struct ListDirResponse {
    pub entries: Vec<EntryInfo>,
}

#[derive(Debug, Clone)]
pub struct EntryInfo {
    pub name: String,
    /// Numeric code of a [`FileType`].
    pub file_type: i32,
    pub path: String,
}

#[derive(Debug, Clone)]
pub struct StatRequest {
    pub path: String,
}

#[derive(Debug, Clone)]
pub struct StatResponse {
    pub entry: Option<EntryInfo>,
}

#[derive(Debug, Clone)]
pub struct MakeDirRequest {
    pub path: String,
}

#[derive(Debug, Clone)]
pub struct MakeDirResponse {
    pub entry: Option<EntryInfo>,
}

#[derive(Debug, Clone)]
pub struct RemoveRequest {
    pub path: String,
}

#[derive(Debug, Clone)]
pub struct RemoveResponse {}

#[derive(Debug, Clone)]
pub struct MoveRequest {
    pub source: String,
    pub destination: String,
}

#[derive(Debug, Clone)]
pub struct MoveResponse {
    pub entry: Option<EntryInfo>,
}

#[derive(Debug, Clone)]
pub struct WatchDirRequest {
    pub path: String,
    pub recursive: bool,
}

/// Kind of a directory entry.
#[derive(Debug, Clone, Copy, PartialEq, Eq, Structural)]
pub enum FileType {
    Unspecified,
    File,
    Directory,
}

impl FileType {
    pub open spec fn spec_code(self) -> i32 {
        match self {
            FileType::Unspecified => 0,
            FileType::File => 1,
            FileType::Directory => 2,
        }
    }

    /// Numeric code of this kind on the wire.
    pub fn code(self) -> (r: i32)
        ensures
            r == self.spec_code(),
    {
        match self {
            FileType::Unspecified => 0,
            FileType::File => 1,
            FileType::Directory => 2,
        }
    }
}

/// Kind of a filesystem change.
#[derive(Debug, Clone, Copy, PartialEq, Eq, Structural)]
pub enum EventType {
    Unspecified,
    Create,
    Write,
    Remove,
    Rename,
    Chmod,
}

impl EventType {
    pub open spec fn spec_code(self) -> i32 {
        match self {
            EventType::Unspecified => 0,
            EventType::Create => 1,
            EventType::Write => 2,
            EventType::Remove => 3,
            EventType::Rename => 4,
            EventType::Chmod => 5,
        }
    }

    /// Numeric code of this kind on the wire.
    pub fn code(self) -> (r: i32)
        ensures
            r == self.spec_code(),
    {
        match self {
            EventType::Unspecified => 0,
            EventType::Create => 1,
            EventType::Write => 2,
            EventType::Remove => 3,
            EventType::Rename => 4,
            EventType::Chmod => 5,
        }
    }
}

} // verus!
