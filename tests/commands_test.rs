use e2b::client::models::{default_false, is_false, new_sandbox, SandboxState};
use e2b::commands::{AsyncCommandHandle, CommandExitException, CommandHandle, CommandResult, PtySize};
use e2b::config::Config;
use e2b::error::ErrorKind;
use e2b::filesystem::{text_from_bytes, EntryInfo, FileType, WriteEntry};
use e2b::json_types::ProcessSelectorType;
use e2b::pty::PtyHandle;
use e2b::text::push_decimal;

#[test]
fn test_type_exports() {
    let _entry = EntryInfo { name: "test".to_string(), file_type: Some(FileType::File), path: "/test".to_string() };

    let _write_entry = WriteEntry::from_str("/test", "content");

    let _result = CommandResult { stderr: "".to_string(), stdout: "output".to_string(), exit_code: 0, error: None };

    let _size = PtySize { rows: 24, cols: 80 };
}

#[test]
fn single_consumer_endpoints() {
    let (_out_tx, out_rx) = tokio::sync::mpsc::unbounded_channel::<String>();
    let (_err_tx, err_rx) = tokio::sync::mpsc::unbounded_channel::<String>();
    let (exit_tx, exit_rx) = tokio::sync::oneshot::channel::<CommandResult>();
    let mut h = CommandHandle::new(5, out_rx, err_rx, exit_rx);
    assert!(h.stdout_stream().is_some());
    assert!(h.stdout_stream().is_none());
    assert!(h.stderr_stream().is_some());
    assert!(h.stderr_stream().is_none());
    let mut rx = h.take_exit().unwrap();
    exit_tx.send(CommandResult { stderr: String::new(), stdout: "x".to_string(), exit_code: 0, error: None }).unwrap();
    assert_eq!(rx.try_recv().unwrap().stdout, "x");
    let e = h.take_exit().unwrap_err();
    assert_eq!(e.kind(), ErrorKind::Other);
    assert_eq!(e.message(), Some("Command already waited"));
}

#[test]
fn async_handle_and_kill_request() {
    let (_a, out_rx) = tokio::sync::mpsc::unbounded_channel::<String>();
    let (_b, err_rx) = tokio::sync::mpsc::unbounded_channel::<String>();
    let (_c, exit_rx) = tokio::sync::oneshot::channel::<CommandResult>();
    let mut h = AsyncCommandHandle::new(77, out_rx, err_rx, exit_rx);
    assert!(h.take_exit().is_ok());
    assert!(h.take_exit().is_err());
    let k = h.kill_request();
    assert_eq!(k.signal, 9);
    match k.process.unwrap().selector.unwrap() {
        ProcessSelectorType::Pid { pid } => assert_eq!(pid, 77),
        _ => panic!(),
    }
}

#[test]
fn pty_handle_take_once() {
    let (_a, out_rx) = tokio::sync::mpsc::unbounded_channel::<Vec<u8>>();
    let (_b, exit_rx) = tokio::sync::oneshot::channel::<i32>();
    let mut h = PtyHandle::new(3, "id-1".to_string(), out_rx, exit_rx);
    assert_eq!(h.pty_id, "id-1");
    assert!(h.output_stream().is_some());
    assert!(h.output_stream().is_none());
    assert!(h.take_exit().is_ok());
    assert_eq!(h.take_exit().unwrap_err().message(), Some("PTY already waited"));
}

#[test]
fn results_and_exceptions() {
    let r = CommandResult { stderr: "e".to_string(), stdout: "o".to_string(), exit_code: 2, error: Some("x".to_string()) };
    let ex: CommandExitException = r.into();
    assert_eq!(ex.exit_code, 2);
    assert_eq!(ex.stderr, "e");
    assert_eq!(ex.stdout, "o");
    let d = PtySize::default();
    assert_eq!((d.cols, d.rows), (80, 24));
}

#[test]
fn write_entries_and_text() {
    let w = WriteEntry::from_str("/a", "héllo");
    assert_eq!(w.data, "héllo".as_bytes().to_vec());
    let w = WriteEntry::new("/b", vec![1, 2]);
    assert_eq!(w.path, "/b");
    assert_eq!(text_from_bytes(b"text".to_vec()).unwrap(), "text");
    assert_eq!(text_from_bytes(vec![0xc3]).unwrap_err().kind(), ErrorKind::InvalidArgument);
}

#[test]
fn sandbox_creation_request() {
    let n = new_sandbox("base", None);
    assert_eq!(n.template_id, "base");
    assert_eq!(n.timeout, Some(300));
    assert!(!n.auto_pause && !n.secure);
    assert!(n.metadata.is_none());
    assert!(!default_false());
    assert!(is_false(&false));
    assert!(!is_false(&true));
    assert_eq!(SandboxState::Running.name(), "running");
    assert_eq!(SandboxState::Paused.name(), "paused");
}

#[test]
fn config_builders() {
    let c = Config { api_key: "a".to_string(), domain: "https://api.e2b.dev".to_string(), timeout: std::time::Duration::from_secs(30), debug: false };
    let c = c.with_api_key("b").with_domain("https://api.example.com").with_debug(true).with_timeout(std::time::Duration::from_secs(5));
    assert_eq!(c.api_key, "b");
    assert_eq!(c.domain, "https://api.example.com");
    assert!(c.debug);
    assert_eq!(c.timeout.as_secs(), 5);
}

#[test]
fn decimal_rendering() {
    let mut s = String::new();
    push_decimal(&mut s, 0);
    s.push(' ');
    push_decimal(&mut s, 49983);
    s.push(' ');
    push_decimal(&mut s, u64::MAX);
    assert_eq!(s, "0 49983 18446744073709551615");
}
