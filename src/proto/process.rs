//! Messages of the `process.Process` service.

use vstd::prelude::*;
use std::collections::HashMap;

verus! {

#[derive(Debug, Clone)]
pub struct ListRequest {}

#[derive(Debug, Clone)]
pub struct ListResponse {
    pub processes: Vec<ProcessInfo>,
}

#[derive(Debug, Clone)]
pub struct ProcessInfo {
    pub pid: u32,
    pub tag: Option<String>,
    pub config: Option<ProcessConfig>,
}

#[derive(Debug, Clone)]
pub struct ProcessConfig {
    pub cmd: String,
    pub args: Vec<String>,
    pub envs: HashMap<String, String>,
    pub cwd: Option<String>,
}

/// Which process a request is about.
#[derive(Debug, Clone)]
pub enum Selector {
    Pid(u32),
    Tag(String),
}

#[derive(Debug, Clone)]
pub struct ProcessSelector {
    pub selector: Option<Selector>,
}

#[derive(Debug, Clone)]
pub struct SendSignalRequest {
    pub process: Option<ProcessSelector>,
    /// Numeric code of a [`Signal`].
    pub signal: i32,
}

#[derive(Debug, Clone)]
pub struct SendSignalResponse {}

/// Signals that can be sent to a process.
#[derive(Debug, Clone, Copy, PartialEq, Eq, Structural)]
pub enum Signal {
    Unspecified,
    Sigkill,
    Sigterm,
    Sigint,
}

impl Signal {
    pub open spec fn spec_code(self) -> i32 {
        match self {
            Signal::Unspecified => 0,
            Signal::Sigkill => 9,
            Signal::Sigterm => 15,
            Signal::Sigint => 2,
        }
    }

    /// Numeric code of this signal on the wire.
    pub fn code(self) -> (r: i32)
        ensures
            r == self.spec_code(),
    {
        match self {
            Signal::Unspecified => 0,
            Signal::Sigkill => 9,
            Signal::Sigterm => 15,
            Signal::Sigint => 2,
        }
    }
}

} // verus!
