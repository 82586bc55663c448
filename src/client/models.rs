//! Shapes of the control plane's requests and answers.

use vstd::prelude::*;
use std::collections::HashMap;

verus! {

/// Relies on `serde_json::Value`, carried as free-form metadata.
#[verifier::external_type_specification]
#[verifier::external_body]
pub struct ExValue(serde_json::Value);

/// A point in time, in seconds and nanoseconds since the Unix epoch (UTC).
#[derive(Debug, Clone, Copy, PartialEq, Eq, Structural)]
pub struct Timestamp {
    pub seconds: i64,
    pub nanos: u32,
}

/// Body of a sandbox creation request. Absent members and false flags are
/// left out of the JSON.
#[derive(Debug, Clone)]
pub struct NewSandbox {
    pub template_id: String,
    pub alias: Option<String>,
    pub metadata: Option<serde_json::Value>,
    pub env_vars: Option<HashMap<String, String>>,
    pub timeout: Option<u32>,
    pub auto_pause: bool,
    pub secure: bool,
}

/// Answer to a sandbox creation.
#[derive(Debug, Clone)]
pub struct Sandbox {
    pub client_id: String,
    pub sandbox_id: String,
    pub template_id: String,
    pub envd_version: String,
    pub alias: Option<String>,
    pub envd_access_token: Option<String>,
}

/// A sandbox as the listing shows it.
#[derive(Debug, Clone)]
pub struct ListedSandbox {
    pub client_id: String,
    pub sandbox_id: String,
    pub template_id: String,
    pub cpu_count: u32,
    pub memory_mb: u32,
    pub started_at: Timestamp,
    pub end_at: Timestamp,
    pub state: SandboxState,
    pub alias: Option<String>,
    pub metadata: Option<serde_json::Value>,
}

/// A sandbox in detail.
#[derive(Debug, Clone)]
pub struct SandboxDetail {
    pub client_id: String,
    pub sandbox_id: String,
    pub template_id: String,
    pub cpu_count: u32,
    pub memory_mb: u32,
    pub started_at: Timestamp,
    pub end_at: Timestamp,
    pub state: SandboxState,
    pub alias: Option<String>,
    pub metadata: Option<serde_json::Value>,
    pub envd_version: Option<String>,
    pub envd_access_token: Option<String>,
}

/// Whether a sandbox runs or is paused.
#[derive(Debug, Clone, Copy, PartialEq, Eq, Structural)]
pub enum SandboxState {
    Running,
    Paused,
}

impl SandboxState {
    pub open spec fn spec_name(self) -> Seq<char> {
        match self {
            SandboxState::Running => "running"@,
            SandboxState::Paused => "paused"@,
        }
    }

    /// The name of the state on the wire.
    pub fn name(self) -> (r: &'static str)
        ensures
            r@ == self.spec_name(),
    {
        match self {
            SandboxState::Running => "running",
            SandboxState::Paused => "paused",
        }
    }
}

/// One line of a sandbox's log.
#[derive(Debug, Clone)]
pub struct SandboxLog {
    pub timestamp: Timestamp,
    pub line: String,
}

#[derive(Debug, Clone)]
pub struct SandboxLogs {
    pub logs: Vec<SandboxLog>,
}

/// Error body of the control plane.
#[derive(Debug, Clone)]
pub struct ApiError {
    pub code: u32,
    pub message: String,
}

/// The value of a flag that the JSON leaves out.
pub fn default_false() -> (r: bool)
    ensures
        !r,
{
    false
}

/// Whether a flag is left out of the JSON: exactly when it is false.
pub fn is_false(b: &bool) -> (r: bool)
    ensures
        r == !*b,
{
    !*b
}

/// Lifetime, in seconds, that a new sandbox is given.
pub const SANDBOX_TIMEOUT_SECS: u32 = 300;

/// The creation request for a sandbox of the template `template_id`: a
/// lifetime of 300 seconds, no auto-pause, not secure, and the metadata if
/// any.
pub fn new_sandbox(template_id: &str, metadata: Option<serde_json::Value>) -> (r: NewSandbox)
    ensures
        r.template_id@ == template_id@,
        r.timeout == Some(300u32),
        !r.auto_pause,
        !r.secure,
        r.alias is None,
        r.env_vars is None,
        r.metadata == metadata,
{
    NewSandbox {
        template_id: String::from_str(template_id),
        alias: None,
        metadata,
        env_vars: None,
        timeout: Some(SANDBOX_TIMEOUT_SECS),
        auto_pause: false,
        secure: false,
    }
}

} // verus!
