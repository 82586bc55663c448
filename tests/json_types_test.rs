use e2b::json_types;
use e2b::proto::{filesystem, process};

#[test]
fn test_json_type_conversions() {
    // Test filesystem request conversion
    let protobuf_req = filesystem::ListDirRequest { path: "/test".to_string(), depth: 1 };

    let json_req: json_types::ListDirRequest = protobuf_req.into();
    assert_eq!(json_req.path, "/test");
    assert_eq!(json_req.depth, 1);

    // Test filesystem response conversion
    let json_resp = json_types::ListDirResponse {
        entries: vec![json_types::EntryInfo {
            name: "file.txt".to_string(),
            file_type: 1, // File
            path: "/test/file.txt".to_string(),
        }],
    };

    let protobuf_resp: filesystem::ListDirResponse = json_resp.into();
    assert_eq!(protobuf_resp.entries.len(), 1);
    assert_eq!(protobuf_resp.entries[0].name, "file.txt");
}

#[test]
fn test_enums_are_generated() {
    // Test filesystem enums
    let _file_type = filesystem::FileType::File;
    let _dir_type = filesystem::FileType::Directory;

    // Test event types
    let _create_event = filesystem::EventType::Create;
    let _write_event = filesystem::EventType::Write;
}

#[test]
fn wire_codes_of_enums() {
    assert_eq!(filesystem::FileType::Unspecified.code(), 0);
    assert_eq!(filesystem::FileType::File.code(), 1);
    assert_eq!(filesystem::FileType::Directory.code(), 2);
    assert_eq!(filesystem::EventType::Chmod.code(), 5);
    assert_eq!(process::Signal::Sigkill.code(), 9);
    assert_eq!(process::Signal::Sigterm.code(), 15);
    assert_eq!(process::Signal::Sigint.code(), 2);
}

#[test]
fn optional_entry_conversions() {
    let resp = json_types::StatResponse {
        entry: Some(json_types::EntryInfo { name: "a".to_string(), file_type: 2, path: "/a".to_string() }),
    };
    let p: filesystem::StatResponse = resp.into();
    let e = p.entry.unwrap();
    assert_eq!(e.name, "a");
    assert_eq!(e.file_type, 2);
    assert_eq!(e.path, "/a");
    let p: filesystem::MoveResponse = json_types::MoveResponse { entry: None }.into();
    assert!(p.entry.is_none());
    let m: json_types::MoveRequest = filesystem::MoveRequest { source: "/x".to_string(), destination: "/y".to_string() }.into();
    assert_eq!(m.source, "/x");
    assert_eq!(m.destination, "/y");
}

#[test]
fn process_list_conversion_keeps_order() {
    let resp = json_types::ListResponse {
        processes: vec![
            json_types::ProcessInfo { pid: 1, tag: "one".to_string(), config: None },
            json_types::ProcessInfo {
                pid: 2,
                tag: "two".to_string(),
                config: Some(json_types::ProcessConfig {
                    cmd: "sleep".to_string(),
                    args: vec!["30".to_string()],
                    envs: Default::default(),
                    cwd: None,
                }),
            },
        ],
    };
    let p: process::ListResponse = resp.into();
    assert_eq!(p.processes.len(), 2);
    assert_eq!(p.processes[0].pid, 1);
    assert_eq!(p.processes[0].tag.as_deref(), Some("one"));
    assert_eq!(p.processes[1].config.as_ref().unwrap().cmd, "sleep");
}

#[test]
fn signal_request_conversion() {
    let req = process::SendSignalRequest {
        process: Some(process::ProcessSelector { selector: Some(process::Selector::Tag("t".to_string())) }),
        signal: 15,
    };
    let j: json_types::SendSignalRequest = req.into();
    assert_eq!(j.signal, 15);
    match j.process.unwrap().selector.unwrap() {
        json_types::ProcessSelectorType::Tag { tag } => assert_eq!(tag, "t"),
        _ => panic!(),
    }
}
