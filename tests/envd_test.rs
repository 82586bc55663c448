use e2b::config::Config;
use e2b::connect::ConnectError;
use e2b::envd::{
    agent_auth_header, agent_host, agent_url, basic_auth_header, build_envd_url, connect_config, display_env,
    entries_from_listing, exists_from_stat, files_url, get_connect_endpoint, health_url, list_dir_request,
    process_from_wire, pty_start_request, rpc_headers, rpc_url, shell_command, shell_start_request,
    watch_dir_request,
};
use e2b::error::ErrorKind;
use e2b::filesystem::FileType;
use e2b::proto::filesystem as fs;
use e2b::proto::process as pr;
use std::collections::HashMap;

fn config(domain: &str, debug: bool) -> Config {
    Config { api_key: "key".to_string(), domain: domain.to_string(), timeout: std::time::Duration::from_secs(30), debug }
}

#[test]
fn endpoint_derivation() {
    assert_eq!(build_envd_url("s-c", "https://api.example.com").unwrap(), "https://49983-s-c.example.com/");
    assert_eq!(build_envd_url("s-c", "https://foo.example.com").unwrap(), "https://49983-s-c.foo.example.com/");
    assert_eq!(agent_url(&config("https://api.example.com", false), "s", "c").unwrap(), "https://49983-s-c.example.com/");
    assert_eq!(agent_url(&config("https://api.example.com", true), "s", "c").unwrap(), "http://localhost:49983/");
    assert!(build_envd_url("s-c", "not a url").is_err());
}

#[test]
fn agent_host_strips_api_prefix_once() {
    assert_eq!(agent_host("id", "api.e2b.dev"), "49983-id.e2b.dev");
    assert_eq!(agent_host("id", "apix.e2b.dev"), "49983-id.apix.e2b.dev");
    assert_eq!(agent_host("id", "api.api.dev"), "49983-id.api.dev");
}

#[test]
fn connect_endpoints() {
    assert_eq!(get_connect_endpoint("sb", None, true), "http://localhost:49983/");
    assert_eq!(get_connect_endpoint("s-c", None, true), agent_url(&config("https://api.example.com", true), "s", "c").unwrap());
    assert_eq!(get_connect_endpoint("sb", None, false), "https://49983-sb.e2b.app");
    assert_eq!(get_connect_endpoint("sb", Some("x.dev"), false), "https://49983-sb.x.dev");
}

#[test]
fn auth_header() {
    assert_eq!(basic_auth_header("user"), "Basic dXNlcjo=");
    assert_eq!(basic_auth_header(""), "Basic Og==");
    assert_eq!(basic_auth_header("ab"), "Basic YWI6");
    assert_eq!(basic_auth_header("a"), "Basic YTo=");
    let (name, value) = agent_auth_header("root");
    assert_eq!(name, "Authorization");
    assert_eq!(value, "Basic cm9vdDo=");
    let c = connect_config("https://49983-s-c.example.com/", "user");
    assert_eq!(c.base_url, "https://49983-s-c.example.com/");
    assert_eq!(c.headers.get("Authorization").map(|s| s.as_str()), Some("Basic dXNlcjo="));
    assert_eq!(c.headers.len(), 1);
}

#[test]
fn rpc_urls_and_headers() {
    assert_eq!(rpc_url("https://h/", "filesystem.Filesystem", "ListDir"), "https://h/filesystem.Filesystem/ListDir");
    assert_eq!(rpc_url("http://localhost:49983", "process.Process", "Start"), "http://localhost:49983/process.Process/Start");
    assert_eq!(files_url("https://h/"), "https://h/files");
    assert_eq!(health_url("https://h"), "https://h/health");
    let h = rpc_headers(false);
    assert_eq!(h, vec![
        ("connect-protocol-version".to_string(), "1".to_string()),
        ("content-type".to_string(), "application/json".to_string()),
    ]);
    let h = rpc_headers(true);
    assert_eq!(h[1].1, "application/connect+json");
    assert_eq!(h[2], ("connect-keepalive-ping".to_string(), "30".to_string()));
}

#[test]
fn shell_requests() {
    assert_eq!(shell_command("echo", &[]), "echo");
    assert_eq!(shell_command("echo", &["hello", "world"]), "echo hello world");
    let r = shell_start_request("sleep", &["30"], HashMap::new(), Some("/tmp".to_string()));
    assert_eq!(r.process.cmd, "/bin/bash");
    assert_eq!(r.process.args, vec!["-l".to_string(), "-c".to_string(), "sleep 30".to_string()]);
    assert_eq!(r.process.cwd.as_deref(), Some("/tmp"));
    assert!(r.pty.is_none());
    let env = display_env();
    assert_eq!(env.get("DISPLAY").map(|s| s.as_str()), Some(":1"));
}

#[test]
fn pty_requests() {
    let r = pty_start_request("bash", &["-i"], HashMap::new(), None, None);
    assert_eq!(r.process.cmd, "bash");
    assert_eq!(r.process.args, vec!["-i".to_string()]);
    let size = r.pty.unwrap().size.unwrap();
    assert_eq!((size.cols, size.rows), (80, 24));
    let r = pty_start_request("bash", &[], HashMap::new(), None, Some(e2b::commands::PtySize { rows: 50, cols: 120 }));
    let size = r.pty.unwrap().size.unwrap();
    assert_eq!((size.cols, size.rows), (120, 50));
}

#[test]
fn simple_requests() {
    let r = list_dir_request("/tmp/test_dir");
    assert_eq!(r.path, "/tmp/test_dir");
    assert_eq!(r.depth, 1);
    let w = watch_dir_request("/x");
    assert_eq!(w.path, "/x");
    assert!(!w.recursive);
}

#[test]
fn list_dir_after_write() {
    let resp = fs::ListDirResponse {
        entries: vec![fs::EntryInfo { name: "test.txt".to_string(), file_type: 1, path: "/tmp/test_dir/test.txt".to_string() }],
    };
    let entries = entries_from_listing(resp);
    assert_eq!(entries.len(), 1);
    assert_eq!(entries[0].name, "test.txt");
    assert_eq!(entries[0].file_type, Some(FileType::File));
    assert_eq!(entries[0].path, "/tmp/test_dir/test.txt");
}

#[test]
fn entry_kinds() {
    let resp = fs::ListDirResponse {
        entries: vec![
            fs::EntryInfo { name: "d".to_string(), file_type: 2, path: "/d".to_string() },
            fs::EntryInfo { name: "u".to_string(), file_type: 9, path: "/u".to_string() },
        ],
    };
    let entries = entries_from_listing(resp);
    assert_eq!(entries[0].file_type, Some(FileType::Dir));
    assert_eq!(entries[1].file_type, None);
}

#[test]
fn exists_on_404() {
    let found = exists_from_stat(Ok(fs::StatResponse {
        entry: Some(fs::EntryInfo { name: "a".to_string(), file_type: 1, path: "/a".to_string() }),
    }));
    assert_eq!(found.unwrap(), true);
    assert_eq!(exists_from_stat(Ok(fs::StatResponse { entry: None })).unwrap(), false);
    let missing = exists_from_stat(Err(ConnectError::Rpc { code: 404, message: "no".to_string() }));
    assert_eq!(missing.unwrap(), false);
    let other = exists_from_stat(Err(ConnectError::Rpc { code: 401, message: "denied".to_string() }));
    let e = other.unwrap_err();
    assert_eq!(e.kind(), ErrorKind::Authentication);
    assert_eq!(e.message(), Some("denied"));
    let other = exists_from_stat(Err(ConnectError::InvalidResponse("bad".to_string())));
    assert_eq!(other.unwrap_err().kind(), ErrorKind::Protocol);
}

#[test]
fn process_descriptions() {
    let p = process_from_wire(pr::ProcessInfo {
        pid: 12,
        tag: Some("t".to_string()),
        config: Some(pr::ProcessConfig {
            cmd: "sleep".to_string(),
            args: vec!["30".to_string()],
            envs: HashMap::new(),
            cwd: Some("/".to_string()),
        }),
    });
    assert_eq!(p.pid, 12);
    assert_eq!(p.cmd, "sleep");
    assert_eq!(p.args, vec!["30".to_string()]);
    assert_eq!(p.cwd.as_deref(), Some("/"));
    let p = process_from_wire(pr::ProcessInfo { pid: 1, tag: None, config: None });
    assert_eq!(p.cmd, "");
    assert!(p.args.is_empty());
}
