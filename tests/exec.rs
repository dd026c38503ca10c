use zenroom::marshal::NativeText;
use zenroom::{
    buffer_to_string, zencode_exec, EngineSession, zencode_exec_extra, zenroom_exec, ExecMode, NativeEngine,
    NativeRequest, ZenError, OUTPUT_BUFFER_SIZE,
};

/// Counts its runs and writes fixed text.
struct CountingEngine {
    calls: usize,
    status: i32,
    modes: Vec<ExecMode>,
}

impl CountingEngine {
    fn new(status: i32) -> Self {
        CountingEngine { calls: 0, status, modes: Vec::new() }
    }
}

fn write_text(buf: &mut Vec<u8>, text: &[u8]) {
    buf[..text.len()].copy_from_slice(text);
}

impl NativeEngine for CountingEngine {
    fn execute(
        &mut self,
        mode: ExecMode,
        _request: &NativeRequest,
        stdout: &mut Vec<u8>,
        stderr: &mut Vec<u8>,
    ) -> i32 {
        self.calls += 1;
        self.modes.push(mode);
        write_text(stdout, b"{\"ok\":true}\0");
        write_text(stderr, b"[W] something\0");
        self.status
    }
}

/// Echoes each field into the output regions: the script into stdout, the
/// keys into stderr, terminators included.
struct EchoEngine {
    capacity_seen: usize,
}

impl NativeEngine for EchoEngine {
    fn execute(
        &mut self,
        _mode: ExecMode,
        request: &NativeRequest,
        stdout: &mut Vec<u8>,
        stderr: &mut Vec<u8>,
    ) -> i32 {
        self.capacity_seen = stdout.len();
        write_text(stdout, request.script.as_bytes());
        write_text(stderr, request.keys.as_bytes());
        0
    }
}

#[test]
fn null_byte_input_error() {
    let mut session = EngineSession::new(CountingEngine::new(0));
    let script_with_null = "test\0script";
    let result = zencode_exec(&mut session, script_with_null, "", "", "");

    assert!(result.is_err());
    assert!(matches!(result, Err(ZenError::InvalidInput(_))));
}

/// Reports a failed run: status one, and a log line.
struct FailingEngine;

impl NativeEngine for FailingEngine {
    fn execute(
        &mut self,
        _mode: ExecMode,
        _request: &NativeRequest,
        _stdout: &mut Vec<u8>,
        stderr: &mut Vec<u8>,
    ) -> i32 {
        write_text(stderr, b"[!] 'nonexistent' is not a known schema\0");
        1
    }
}

/// Writes a whole region with no terminator, then grows it past capacity.
struct OverflowEngine;

impl NativeEngine for OverflowEngine {
    fn execute(
        &mut self,
        _mode: ExecMode,
        _request: &NativeRequest,
        stdout: &mut Vec<u8>,
        _stderr: &mut Vec<u8>,
    ) -> i32 {
        for b in stdout.iter_mut() {
            *b = b'x';
        }
        stdout.extend_from_slice(b"tail");
        0
    }
}

#[test]
fn invalid_script_error() {
    let invalid_script = r#"
        Scenario 'ecdh'
        Given I have a 'nonexistent' named 'foo'
        "#;

    let mut session = EngineSession::new(FailingEngine);
    let result = zencode_exec(&mut session, invalid_script, "", "", "");
    assert!(result.is_err());

    if let Err(ZenError::Execution(err)) = result {
        assert!(!err.logs.is_empty());
    } else {
        panic!("Expected Execution error");
    }
}

#[test]
fn output_is_read_within_capacity() {
    let mut session = EngineSession::new(OverflowEngine);
    let result = zencode_exec(&mut session, "x", "", "", "").unwrap();
    assert_eq!(result.output.len(), OUTPUT_BUFFER_SIZE);
    assert!(result.output.bytes().all(|b| b == b'x'));
    assert_eq!(result.logs, "");
}

#[test]
fn null_byte_never_reaches_engine() {
    let mut session = EngineSession::new(CountingEngine::new(0));
    let result = zencode_exec(&mut session, "test\0script", "", "", "");
    assert_eq!(session.engine.calls, 0);
    match result {
        Err(ZenError::InvalidInput(e)) => {
            assert_eq!(e.field, 0);
            assert_eq!(e.position, 4);
            assert_eq!(e.bytes, b"test\0script".to_vec());
        }
        _ => panic!("expected invalid input"),
    }
}

#[test]
fn null_byte_in_later_field_is_reported_there() {
    let mut session = EngineSession::new(CountingEngine::new(0));
    let result = zencode_exec_extra(&mut session, "ok", "", "k", "d", "ab\0", "\0");
    assert_eq!(session.engine.calls, 0);
    match result {
        Err(ZenError::InvalidInput(e)) => {
            assert_eq!(e.field, 4);
            assert_eq!(e.position, 2);
        }
        _ => panic!("expected invalid input"),
    }
}

#[test]
fn success_carries_output_and_logs() {
    let mut session = EngineSession::new(CountingEngine::new(0));
    let result = zencode_exec(&mut session, "Given nothing", "", "", "").unwrap();
    assert_eq!(session.engine.calls, 1);
    assert_eq!(session.engine.modes, vec![ExecMode::Zencode]);
    assert_eq!(result.output, "{\"ok\":true}");
    assert_eq!(result.logs, "[W] something");
}

#[test]
fn nonzero_status_is_execution_error_with_logs() {
    let mut session = EngineSession::new(CountingEngine::new(3));
    match zenroom_exec(&mut session, "print(1)", "", "", "") {
        Err(ZenError::Execution(res)) => {
            assert_eq!(res.output, "{\"ok\":true}");
            assert_eq!(res.logs, "[W] something");
        }
        _ => panic!("expected execution error"),
    }
    assert_eq!(session.engine.modes, vec![ExecMode::Lua]);
}

#[test]
fn echoed_request_round_trips() {
    let mut session = EngineSession::new(EchoEngine { capacity_seen: 0 });
    let script = "Given that I am known as 'Alice'\nWhen I create the keypair\nThen print my data";
    let result = zencode_exec(&mut session, script, "", "caf\u{e9} \u{1F600}", "").unwrap();
    assert_eq!(session.engine.capacity_seen, OUTPUT_BUFFER_SIZE);
    assert_eq!(result.output, script);
    assert_eq!(result.logs, "caf\u{e9} \u{1F600}");
}

#[test]
fn echoed_empty_request_round_trips() {
    let mut session = EngineSession::new(EchoEngine { capacity_seen: 0 });
    let result = zencode_exec(&mut session, "", "", "", "").unwrap();
    assert_eq!(result.output, "");
    assert_eq!(result.logs, "");
}

#[test]
fn identical_requests_give_identical_results() {
    let mut first = EngineSession::new(CountingEngine::new(0));
    let mut second = EngineSession::new(CountingEngine::new(0));
    let a = zencode_exec(&mut first, "same", "", "", "").unwrap();
    for _ in 0..5 {
        let b = zencode_exec(&mut second, "same", "", "", "").unwrap();
        assert_eq!(a.output, b.output);
        assert_eq!(a.logs, b.logs);
    }
    assert_eq!(second.engine.calls, 5);
}

#[test]
fn native_text_is_terminated() {
    let t = NativeText::new("abc").ok().unwrap();
    assert_eq!(t.as_bytes(), b"abc\0");
    assert_eq!(NativeText::new("a\0b\0").err(), Some(1));
    assert_eq!(NativeText::new("").ok().unwrap().as_bytes(), b"\0");
}

#[test]
fn buffer_stops_at_first_terminator() {
    assert_eq!(buffer_to_string(b"hello\0world\0"), "hello");
    assert_eq!(buffer_to_string(b"\0abc"), "");
}

#[test]
fn buffer_without_terminator_decodes_whole() {
    assert_eq!(buffer_to_string(b"no end"), "no end");
    assert_eq!(buffer_to_string(b""), "");
}

#[test]
fn buffer_invalid_utf8_is_replaced() {
    assert_eq!(buffer_to_string(&[b'a', 0xff, b'b', 0]), "a\u{FFFD}b");
}

#[test]
fn execution_error_message() {
    let mut session = EngineSession::new(CountingEngine::new(1));
    let err = zencode_exec(&mut session, "x", "", "", "").err().unwrap();
    assert_eq!(err.message(), "Execution Error:\n[W] something");
}

#[test]
fn invalid_input_message() {
    let mut session = EngineSession::new(CountingEngine::new(0));
    let err = zencode_exec(&mut session, "0123456789ab\0", "", "", "").err().unwrap();
    assert_eq!(
        err.message(),
        "Invalid input: nul byte found in provided data at position: 12"
    );
}
