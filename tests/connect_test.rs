use e2b::connect::{
    classify_envelope, create_request_envelope, encode_envelope, end_stream_error, http_status_error,
    unary_error, ConnectConfig, ConnectError, EnvelopeReader, Frame, ReadStep, RpcErrorBody,
    StreamParser, StreamingEnvelope,
};

#[test]
fn test_connect_config_default() {
    let config = ConnectConfig::default();
    assert_eq!(config.timeout_secs, 30);
    assert!(config.use_json);
    assert!(config.headers.is_empty());
}

#[test]
fn envelope_round_trip_single() {
    let payload = b"{\"path\":\"/tmp\"}".to_vec();
    let bytes = encode_envelope(0x02, &payload);
    assert_eq!(bytes[0], 0x02);
    assert_eq!(&bytes[1..5], &[0, 0, 0, payload.len() as u8]);
    let mut p = StreamParser::new();
    p.add_chunk(&bytes);
    let envs = p.parse_envelopes();
    assert_eq!(envs.len(), 1);
    assert_eq!(envs[0].flags, 0x02);
    assert_eq!(envs[0].data_length as usize, payload.len());
    assert_eq!(envs[0].data, payload);
    assert!(p.parse_envelopes().is_empty());
}

#[test]
fn envelope_round_trip_empty_and_large_length() {
    let bytes = encode_envelope(0, &[]);
    assert_eq!(bytes, vec![0, 0, 0, 0, 0]);
    let data = vec![7u8; 70000];
    let bytes = encode_envelope(1, &data);
    assert_eq!(&bytes[0..5], &[1, 0, 1, 0x11, 0x70]);
    let mut p = StreamParser::new();
    p.add_chunk(&bytes);
    let envs = p.parse_envelopes();
    assert_eq!(envs.len(), 1);
    assert_eq!(envs[0].data.len(), 70000);
    assert!(envs[0].is_compressed());
}

#[test]
fn request_envelope_has_no_flags() {
    let bytes = create_request_envelope(b"{}");
    assert_eq!(bytes, vec![0, 0, 0, 0, 2, b'{', b'}']);
}

#[test]
fn envelope_fragmentation() {
    let mut p = StreamParser::new();
    let chunks: Vec<Vec<u8>> = vec![vec![0x00], vec![0x00, 0x00, 0x00, 0x05], b"he".to_vec(), b"ll".to_vec(), b"o".to_vec()];
    let mut seen = Vec::new();
    for (i, c) in chunks.iter().enumerate() {
        p.add_chunk(c);
        let envs = p.parse_envelopes();
        if i + 1 < chunks.len() {
            assert!(envs.is_empty(), "envelope came out early at chunk {}", i);
        }
        seen.extend(envs);
    }
    assert_eq!(seen.len(), 1);
    assert_eq!(seen[0].flags, 0);
    assert_eq!(seen[0].data, b"hello".to_vec());
}

#[test]
fn chunk_agnostic_parsing() {
    let mut stream = Vec::new();
    stream.extend(encode_envelope(0, b"first"));
    stream.extend(encode_envelope(0, b""));
    stream.extend(encode_envelope(0, b"third message"));
    stream.extend(encode_envelope(2, b""));
    for size in 1..stream.len() + 1 {
        let mut p = StreamParser::new();
        let mut seen = Vec::new();
        for chunk in stream.chunks(size) {
            p.add_chunk(chunk);
            seen.extend(p.parse_envelopes());
        }
        let datas: Vec<Vec<u8>> = seen.iter().map(|e| e.data.clone()).collect();
        assert_eq!(datas, vec![b"first".to_vec(), vec![], b"third message".to_vec(), vec![]]);
        let flags: Vec<u8> = seen.iter().map(|e| e.flags).collect();
        assert_eq!(flags, vec![0, 0, 0, 2]);
    }
}

#[test]
fn envelope_flags() {
    let e = StreamingEnvelope { flags: 0x03, data_length: 0, data: vec![] };
    assert!(e.is_compressed());
    assert!(e.is_end_stream());
    let e = StreamingEnvelope { flags: 0x00, data_length: 0, data: vec![] };
    assert!(!e.is_compressed());
    assert!(!e.is_end_stream());
}

#[test]
fn reader_hands_out_envelopes_in_order_and_stops_at_end() {
    let mut r = EnvelopeReader::new();
    assert!(matches!(r.poll(), ReadStep::NeedChunk));
    let mut bytes = encode_envelope(0, b"a");
    bytes.extend(encode_envelope(0, b"b"));
    bytes.extend(encode_envelope(2, b""));
    bytes.extend(encode_envelope(0, b"after end"));
    r.on_chunk(&bytes);
    match r.poll() {
        ReadStep::Envelope(e) => assert_eq!(e.data, b"a".to_vec()),
        _ => panic!("expected an envelope"),
    }
    match r.poll() {
        ReadStep::Envelope(e) => assert_eq!(e.data, b"b".to_vec()),
        _ => panic!("expected an envelope"),
    }
    match r.poll() {
        ReadStep::Envelope(e) => assert!(e.is_end_stream()),
        _ => panic!("expected the end envelope"),
    }
    assert!(matches!(r.poll(), ReadStep::Finished));
}

#[test]
fn reader_finishes_on_eof() {
    let mut r = EnvelopeReader::new();
    r.on_chunk(&[0, 0, 0]);
    assert!(matches!(r.poll(), ReadStep::NeedChunk));
    r.on_eof();
    assert!(matches!(r.poll(), ReadStep::Finished));
}

#[test]
fn classify_frames() {
    let data = StreamingEnvelope { flags: 0, data_length: 2, data: b"{}".to_vec() };
    assert!(matches!(classify_envelope(data), Ok(Frame::Message(b)) if b == b"{}".to_vec()));
    let end = StreamingEnvelope { flags: 2, data_length: 0, data: vec![] };
    assert!(matches!(classify_envelope(end), Ok(Frame::End)));
    let end_body = StreamingEnvelope { flags: 2, data_length: 2, data: b"{}".to_vec() };
    assert!(matches!(classify_envelope(end_body), Ok(Frame::EndWithBody(_))));
    let compressed = StreamingEnvelope { flags: 1, data_length: 2, data: b"{}".to_vec() };
    match classify_envelope(compressed) {
        Err(ConnectError::InvalidResponse(m)) => assert_eq!(m, "Compression not yet supported"),
        _ => panic!("compressed envelope accepted"),
    }
    let compressed_end = StreamingEnvelope { flags: 3, data_length: 0, data: vec![] };
    assert!(matches!(classify_envelope(compressed_end), Err(ConnectError::InvalidResponse(_))));
}

#[test]
fn end_of_stream_with_error_body() {
    let body = RpcErrorBody { code: Some(13), message: Some("boom".to_string()) };
    match end_stream_error(body) {
        ConnectError::Rpc { code, message } => {
            assert_eq!(code, 13);
            assert_eq!(message, "boom");
        }
        _ => panic!("expected an RPC error"),
    }
    match end_stream_error(RpcErrorBody { code: None, message: None }) {
        ConnectError::Rpc { code, message } => {
            assert_eq!(code, 0);
            assert_eq!(message, "Stream error");
        }
        _ => panic!("expected an RPC error"),
    }
}

#[test]
fn unary_and_streaming_status_errors() {
    match unary_error(404, Some(RpcErrorBody { code: None, message: Some("gone".to_string()) }), "") {
        ConnectError::Rpc { code, message } => {
            assert_eq!(code, 404);
            assert_eq!(message, "gone");
        }
        _ => panic!(),
    }
    match unary_error(500, Some(RpcErrorBody { code: Some(7), message: None }), "") {
        ConnectError::Rpc { code, message } => {
            assert_eq!(code, 7);
            assert_eq!(message, "Unknown error");
        }
        _ => panic!(),
    }
    match unary_error(500, None, "x") {
        ConnectError::Rpc { code, message } => {
            assert_eq!(code, 500);
            assert_eq!(message, "HTTP 500: x");
        }
        _ => panic!(),
    }
    match unary_error(502, None, "bad gateway") {
        ConnectError::Rpc { code, message } => {
            assert_eq!(code, 502);
            assert_eq!(message, "HTTP 502: bad gateway");
        }
        _ => panic!(),
    }
    match http_status_error(401, "no") {
        ConnectError::Rpc { code, message } => {
            assert_eq!(code, 401);
            assert_eq!(message, "no");
        }
        _ => panic!(),
    }
}

#[test]
fn parse_stops_at_end_of_stream() {
    let mut bytes = encode_envelope(0, b"a");
    bytes.extend(encode_envelope(2, b""));
    bytes.extend(encode_envelope(0, b"b"));
    let mut p = StreamParser::new();
    p.add_chunk(&bytes);
    let first = p.parse_envelopes();
    assert_eq!(first.len(), 2);
    assert_eq!(first[0].data, b"a".to_vec());
    assert!(first[1].is_end_stream());
    let second = p.parse_envelopes();
    assert_eq!(second.len(), 1);
    assert_eq!(second[0].data, b"b".to_vec());
    assert!(p.parse_envelopes().is_empty());
}
