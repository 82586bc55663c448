use e2b::client::models::ApiError;
use e2b::client::{api_key_header, build_url, control_plane_error, map_api_error, map_http_error, sandbox_logs_path, sandbox_path, sandboxes_path};
use e2b::config::Config;
use e2b::connect::ConnectError;
use e2b::error::{handle_error, map_connect_error, status_error, ErrorKind, SandboxError};

#[test]
fn test_error_types() {
    let _err = SandboxError::authentication("test");

    let auth_err = SandboxError::authentication("auth failed");
    assert!(matches!(auth_err, SandboxError::Authentication { .. }));
}

#[test]
fn control_plane_rate_limit_json() {
    let e = control_plane_error(429, Some(ApiError { code: 429, message: "too many".to_string() }), "{\"code\":429,\"message\":\"too many\"}");
    assert_eq!(e.kind(), ErrorKind::RateLimit);
    assert_eq!(e.message(), Some("too many"));
}

#[test]
fn status_table() {
    let cases = [
        (400, ErrorKind::InvalidArgument),
        (401, ErrorKind::Authentication),
        (404, ErrorKind::NotFound),
        (408, ErrorKind::Timeout),
        (413, ErrorKind::NotEnoughSpace),
        (429, ErrorKind::RateLimit),
        (502, ErrorKind::Timeout),
        (507, ErrorKind::NotEnoughSpace),
        (500, ErrorKind::Internal),
        (418, ErrorKind::Internal),
    ];
    for (code, kind) in cases {
        let e = status_error(code, "m".to_string(), "f".to_string());
        assert_eq!(e.kind(), kind, "status {}", code);
        let expected = if kind == ErrorKind::Internal { "f" } else { "m" };
        assert_eq!(e.message(), Some(expected));
    }
}

#[test]
fn fallback_messages() {
    let e = map_api_error(500, &ApiError { code: 500, message: "oops".to_string() });
    assert_eq!(e.message(), Some("API Error 500: oops"));
    let e = map_http_error(503, "down");
    assert_eq!(e.message(), Some("HTTP 503: down"));
    let e = control_plane_error(404, None, "Sandbox not found");
    assert_eq!(e.kind(), ErrorKind::NotFound);
    assert_eq!(e.message(), Some("Sandbox not found"));
    let e = handle_error(500, "broken");
    assert_eq!(e.message(), Some("500: broken"));
    let e = handle_error(507, "full");
    assert_eq!(e.kind(), ErrorKind::NotEnoughSpace);
}

#[test]
fn connect_errors_map_by_code() {
    let e = map_connect_error(ConnectError::Rpc { code: 429, message: "slow down".to_string() });
    assert_eq!(e.kind(), ErrorKind::RateLimit);
    let e = map_connect_error(ConnectError::Rpc { code: -3, message: "odd".to_string() });
    assert_eq!(e.kind(), ErrorKind::Internal);
    assert_eq!(e.message(), Some("RPC error -3: odd"));
    let e = map_connect_error(ConnectError::InvalidResponse("x".to_string()));
    assert_eq!(e.kind(), ErrorKind::Protocol);
    let json_err = serde_json::from_str::<serde_json::Value>("{").unwrap_err();
    let e = map_connect_error(ConnectError::Json(json_err));
    assert_eq!(e.kind(), ErrorKind::Serialization);
    assert_eq!(e.message(), None);
}

#[test]
fn error_constructors() {
    assert_eq!(SandboxError::not_found("a").kind(), ErrorKind::NotFound);
    assert_eq!(SandboxError::invalid_argument("a").kind(), ErrorKind::InvalidArgument);
    assert_eq!(SandboxError::timeout("a").kind(), ErrorKind::Timeout);
    assert_eq!(SandboxError::template("a").kind(), ErrorKind::Template);
    assert_eq!(SandboxError::not_enough_space("a").kind(), ErrorKind::NotEnoughSpace);
    assert_eq!(SandboxError::rate_limit("a").kind(), ErrorKind::RateLimit);
    assert_eq!(SandboxError::internal("a").kind(), ErrorKind::Internal);
    assert_eq!(SandboxError::other("b").message(), Some("b"));
}

#[test]
fn control_plane_requests() {
    let c = Config { api_key: "k-1".to_string(), domain: "https://api.e2b.dev".to_string(), timeout: std::time::Duration::from_secs(30), debug: false };
    assert_eq!(api_key_header(&c), ("X-API-KEY".to_string(), "k-1".to_string()));
    assert_eq!(sandboxes_path(), "/sandboxes");
    assert_eq!(sandbox_path("abc"), "/sandboxes/abc");
    assert_eq!(sandbox_logs_path("abc"), "/sandboxes/abc/logs");
    assert_eq!(build_url(&c, "/sandboxes").unwrap(), "https://api.e2b.dev/sandboxes");
    assert_eq!(build_url(&c, "sandboxes/x").unwrap(), "https://api.e2b.dev/sandboxes/x");
    let bad = Config { domain: "nope".to_string(), ..c };
    assert_eq!(build_url(&bad, "/x").unwrap_err().kind(), ErrorKind::InvalidArgument);
}
