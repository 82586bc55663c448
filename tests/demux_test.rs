use e2b::demux::{event_type_from_code, start_pid, translate_watch, DemuxAction, OutputDemux, PtyAction, PtyDemux, RunCollector};
use e2b::filesystem::FilesystemEventType;
use e2b::json_types::{
    DataEvent, EndEvent, FilesystemEvent, ProcessEvent, ProcessKeepAliveEvent, StartEvent, WatchDirResponse,
    WatchEvent, WatchStartEvent,
};

fn data(stdout: Option<&[u8]>, stderr: Option<&[u8]>, pty: Option<&[u8]>) -> ProcessEvent {
    ProcessEvent {
        start: None,
        data: Some(DataEvent {
            stdout: stdout.map(|b| b.to_vec()),
            stderr: stderr.map(|b| b.to_vec()),
            pty: pty.map(|b| b.to_vec()),
        }),
        end: None,
        keep_alive: None,
    }
}

fn end(code: i32, error: Option<&str>) -> ProcessEvent {
    ProcessEvent {
        start: None,
        data: None,
        end: Some(EndEvent { exit_code: code, error: error.map(|s| s.to_string()) }),
        keep_alive: None,
    }
}

#[test]
fn run_echo_hello() {
    let mut c = RunCollector::new();
    c.on_event(&ProcessEvent { start: Some(StartEvent { pid: 7 }), data: None, end: None, keep_alive: None });
    c.on_event(&data(Some(b"hello\n"), None, None));
    c.on_event(&end(0, None));
    let r = c.finish();
    assert_eq!(r.stdout, "hello\n");
    assert_eq!(r.stderr, "");
    assert_eq!(r.exit_code, 0);
    assert_eq!(r.error, None);
}

#[test]
fn run_ignores_events_after_end_and_reports_errors() {
    let mut c = RunCollector::new();
    c.on_event(&data(Some(b"a"), Some(b"e1"), None));
    c.on_event(&data(None, Some(b"e2"), None));
    c.on_event(&end(-9, Some("signal: killed")));
    c.on_event(&data(Some(b"late"), None, None));
    let r = c.finish();
    assert_eq!(r.stdout, "a");
    assert_eq!(r.stderr, "e1e2");
    assert_eq!(r.exit_code, -9);
    assert_eq!(r.error.as_deref(), Some("signal: killed"));
}

#[test]
fn run_stream_closed_without_end() {
    let mut c = RunCollector::new();
    c.on_event(&data(Some(b"partial"), None, None));
    let r = c.finish();
    assert_eq!(r.stdout, "partial");
    assert_eq!(r.exit_code, 0);
    assert_eq!(r.error.as_deref(), Some("stream closed"));
}

#[test]
fn invalid_utf8_is_replaced() {
    let mut c = RunCollector::new();
    c.on_event(&data(Some(&[b'o', b'k', 0xff]), None, None));
    let r = c.finish();
    assert_eq!(r.stdout, "ok\u{fffd}");
}

#[test]
fn fan_out_sends_then_closes_then_exits() {
    let mut d = OutputDemux::new();
    let a = d.on_event(&data(Some(b"out"), Some(b"err"), None));
    assert_eq!(a.len(), 2);
    assert!(matches!(&a[0], DemuxAction::Stdout(s) if s == "out"));
    assert!(matches!(&a[1], DemuxAction::Stderr(s) if s == "err"));
    let a = d.on_event(&ProcessEvent {
        start: None,
        data: Some(DataEvent { stdout: Some(b"more".to_vec()), stderr: None, pty: None }),
        end: Some(EndEvent { exit_code: 3, error: None }),
        keep_alive: None,
    });
    assert_eq!(a.len(), 3);
    assert!(matches!(&a[0], DemuxAction::Stdout(s) if s == "more"));
    assert!(matches!(&a[1], DemuxAction::CloseOutputs));
    match &a[2] {
        DemuxAction::Exit(r) => {
            assert_eq!(r.stdout, "outmore");
            assert_eq!(r.stderr, "err");
            assert_eq!(r.exit_code, 3);
            assert_eq!(r.error, None);
        }
        _ => panic!("exit slot not filled last"),
    }
    assert!(d.on_event(&data(Some(b"late"), None, None)).is_empty());
    assert!(d.on_stream_end().is_empty());
}

#[test]
fn start_then_kill() {
    let mut d = OutputDemux::new();
    let a = d.on_event(&ProcessEvent { start: Some(StartEvent { pid: 42 }), data: None, end: None, keep_alive: None });
    assert!(a.is_empty());
    let a = d.on_event(&end(-9, Some("signal: killed")));
    assert_eq!(a.len(), 2);
    assert!(matches!(&a[0], DemuxAction::CloseOutputs));
    match &a[1] {
        DemuxAction::Exit(r) => {
            assert_eq!(r.exit_code, -9);
            assert_eq!(r.error.as_deref(), Some("signal: killed"));
            assert_eq!(r.stdout, "");
        }
        _ => panic!(),
    }
}

#[test]
fn fan_out_stream_end_without_end_event() {
    let mut d = OutputDemux::new();
    d.on_event(&ProcessEvent { start: None, data: None, end: None, keep_alive: Some(ProcessKeepAliveEvent {}) });
    let a = d.on_stream_end();
    assert_eq!(a.len(), 2);
    assert!(matches!(&a[0], DemuxAction::CloseOutputs));
    assert!(matches!(&a[1], DemuxAction::FailExit));
}

#[test]
fn pty_demux_forwards_bytes_and_exit_code() {
    let mut d = PtyDemux::new();
    let a = d.on_event(&data(Some(b"s"), None, Some(b"p")));
    assert_eq!(a.len(), 2);
    assert!(matches!(&a[0], PtyAction::Output(b) if b == b"p"));
    assert!(matches!(&a[1], PtyAction::Output(b) if b == b"s"));
    let a = d.on_event(&end(130, None));
    assert_eq!(a.len(), 2);
    assert!(matches!(&a[0], PtyAction::CloseOutput));
    assert!(matches!(&a[1], PtyAction::Exit(130)));
    assert!(d.on_stream_end().is_empty());
    let mut d = PtyDemux::new();
    let a = d.on_stream_end();
    assert!(matches!(&a[1], PtyAction::FailExit));
}

#[test]
fn watch_observes_a_create() {
    let start = WatchDirResponse { event: Some(WatchEvent::Start { start: WatchStartEvent {} }) };
    assert!(translate_watch(start).is_none());
    let fs = WatchDirResponse {
        event: Some(WatchEvent::Filesystem { filesystem: FilesystemEvent { name: "a".to_string(), event_type: 1 } }),
    };
    let ev = translate_watch(fs).unwrap();
    assert_eq!(ev.name, "a");
    assert_eq!(ev.event_type, FilesystemEventType::Create);
    let ka = WatchDirResponse { event: Some(WatchEvent::KeepAlive { keepalive: ProcessKeepAliveEvent {} }) };
    assert!(translate_watch(ka).is_none());
    assert!(translate_watch(WatchDirResponse { event: None }).is_none());
}

#[test]
fn watch_event_codes() {
    assert_eq!(event_type_from_code(1), FilesystemEventType::Create);
    assert_eq!(event_type_from_code(2), FilesystemEventType::Write);
    assert_eq!(event_type_from_code(3), FilesystemEventType::Remove);
    assert_eq!(event_type_from_code(4), FilesystemEventType::Rename);
    assert_eq!(event_type_from_code(5), FilesystemEventType::Chmod);
    assert_eq!(event_type_from_code(0), FilesystemEventType::Write);
    assert_eq!(event_type_from_code(99), FilesystemEventType::Write);
}

#[test]
fn pid_of_start_event() {
    let e = ProcessEvent { start: Some(StartEvent { pid: 321 }), data: None, end: None, keep_alive: None };
    assert_eq!(start_pid(&e), Some(321));
    assert_eq!(start_pid(&data(Some(b"x"), None, None)), None);
}
