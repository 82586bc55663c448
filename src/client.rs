//! The control plane: request URLs, the API-key credential, and the mapping
//! of its error answers.

use vstd::prelude::*;
use crate::config::Config;
use crate::error::{coded_text, coded_message, is_status_error, status_error, SandboxError};
use crate::text::push_text;

pub mod models;

use models::ApiError;

verus! {

/// The URL that the `url` crate makes of `path` relative to `base` (none
/// when either is refused).
pub uninterp spec fn url_join_of(base: Seq<char>, path: Seq<char>) -> Option<Seq<char>>;

/// Relies on `url::Url::join`: `path` resolved against `base`.
#[verifier::external_body]
fn url_join(base: &str, path: &str) -> (r: Option<String>)
    ensures
        match r {
            Some(u) => url_join_of(base@, path@) == Some(u@),
            None => url_join_of(base@, path@) is None,
        },
{
    url::Url::parse(base).ok()?.join(path).ok().map(|u| u.to_string())
}

/// `path` with a leading `/`.
pub open spec fn absolute_path(path: Seq<char>) -> Seq<char> {
    if path.len() > 0 && path[0] == '/' {
        path
    } else {
        "/"@ + path
    }
}

/// The URL of `path` on the control plane of `config`.
pub fn build_url(config: &Config, path: &str) -> (r: Result<String, SandboxError>)
    ensures
        match r {
            Ok(u) => url_join_of(config.domain@, absolute_path(path@)) == Some(u@),
            Err(e) => url_join_of(config.domain@, absolute_path(path@)) is None && e.spec_kind()
                == crate::error::ErrorKind::InvalidArgument,
        },
{
    let n = path.unicode_len();
    let joined = if n > 0 && path.get_char(0) == '/' {
        url_join(config.domain.as_str(), path)
    } else {
        let mut p = String::from_str("/");
        push_text(&mut p, path);
        url_join(config.domain.as_str(), p.as_str())
    };
    match joined {
        Some(u) => Ok(u),
        None => Err(SandboxError::invalid_argument("Invalid URL path")),
    }
}

/// The header carrying the control-plane credential: `X-API-KEY`, with the
/// API key.
pub fn api_key_header(config: &Config) -> (r: (String, String))
    ensures
        r.0@ == "X-API-KEY"@,
        r.1@ == config.api_key@,
{
    (String::from_str("X-API-KEY"), config.api_key.clone())
}

/// Path of the sandbox collection.
pub fn sandboxes_path() -> (r: String)
    ensures
        r@ == "/sandboxes"@,
{
    String::from_str("/sandboxes")
}

/// Path of the sandbox `id`.
pub fn sandbox_path(id: &str) -> (r: String)
    ensures
        r@ == "/sandboxes/"@ + id@,
{
    let mut s = String::from_str("/sandboxes/");
    push_text(&mut s, id);
    s
}

/// Path of the logs of the sandbox `id`.
pub fn sandbox_logs_path(id: &str) -> (r: String)
    ensures
        r@ == "/sandboxes/"@ + id@ + "/logs"@,
{
    let mut s = sandbox_path(id);
    push_text(&mut s, "/logs");
    s
}

/// The error for a control-plane answer with a JSON error body: by the
/// status, with the body's message.
pub fn map_api_error(status: u16, api_error: &ApiError) -> (r: SandboxError)
    ensures
        is_status_error(
            r,
            status as int,
            api_error.message@,
            coded_text("API Error "@, api_error.code as int, api_error.message@),
        ),
{
    let fallback = coded_message("API Error ", api_error.code as i64, api_error.message.as_str());
    status_error(status as i64, api_error.message.clone(), fallback)
}

/// The error for a control-plane answer with another body: by the status,
/// with the body's text.
pub fn map_http_error(status: u16, message: &str) -> (r: SandboxError)
    ensures
        is_status_error(r, status as int, message@, coded_text("HTTP "@, status as int, message@)),
{
    let fallback = coded_message("HTTP ", status as i64, message);
    status_error(status as i64, String::from_str(message), fallback)
}

/// The error for a failed control-plane answer: from its JSON error body
/// when it has one, else from its raw text.
pub fn control_plane_error(status: u16, api_error: Option<ApiError>, body: &str) -> (r: SandboxError)
    ensures
        match api_error {
            Some(a) => is_status_error(
                r,
                status as int,
                a.message@,
                coded_text("API Error "@, a.code as int, a.message@),
            ),
            None => is_status_error(
                r,
                status as int,
                body@,
                coded_text("HTTP "@, status as int, body@),
            ),
        },
{
    match api_error {
        Some(a) => map_api_error(status, &a),
        None => map_http_error(status, body),
    }
}

} // verus!
