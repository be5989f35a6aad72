use quick_os::json::JsonValue;
use quick_os::primitives::BuiltinTool;
use quick_os::protocol::{GuestRequest, GuestResponse};
use quick_os::runtime::{read_confined, read_response, AgentRuntime, RuntimeStep};
use quick_os::workspace::Workspace;

fn text(s: &str) -> JsonValue {
    JsonValue::Str(s.to_string())
}

fn member<'a>(v: &'a JsonValue, key: &str) -> &'a JsonValue {
    v.get(key).expect("member present")
}

fn answer(step: RuntimeStep) -> GuestResponse {
    match step {
        RuntimeStep::Respond(r) => r,
        other => panic!("expected an answer, got {other:?}"),
    }
}

#[test]
fn read_workspace_roundtrip() {
    let mut rt = AgentRuntime::new(Workspace::new("/tmp/ws-roundtrip"));
    let step = rt.handle(GuestRequest::ReadWorkspace { path: "hello.txt".into() });
    let (path, full) = match step {
        RuntimeStep::ReadFile { path, full_path } => (path, full_path),
        other => panic!("expected a read, got {other:?}"),
    };
    assert_eq!(full, "/tmp/ws-roundtrip/hello.txt");
    // The file at `full` holds "world".
    let resp = read_response(&path, Ok("world".to_string()));
    assert!(resp.ok);
    assert_eq!(member(resp.result.as_ref().unwrap(), "content").as_str(), Some("world"));
    assert_eq!(member(resp.result.as_ref().unwrap(), "path").as_str(), Some("hello.txt"));
}

#[test]
fn read_error_is_reported_as_io() {
    let resp = read_response("missing.txt", Err("No such file or directory (os error 2)".into()));
    assert!(!resp.ok);
    assert!(resp.result.is_none());
    assert_eq!(resp.error.as_deref(), Some("io: No such file or directory (os error 2)"));
}

#[test]
fn read_outside_workspace_is_refused_without_reading() {
    let mut rt = AgentRuntime::new(Workspace::new("/workspace"));
    let resp = answer(rt.handle(GuestRequest::ReadWorkspace { path: "../etc/passwd".into() }));
    assert!(!resp.ok);
    assert_eq!(resp.error.as_deref(), Some("path escapes workspace: ../etc/passwd"));
    let resp = answer(rt.handle(GuestRequest::ReadWorkspace { path: "/etc/passwd".into() }));
    assert_eq!(resp.error.as_deref(), Some("path escapes workspace: /etc/passwd"));
    assert!(rt.events().is_empty());
}

#[test]
fn echo_tool_repeats_message() {
    let input = JsonValue::Object(vec![("message".to_string(), text("hi"))]);
    let out = BuiltinTool::run("echo", &input).unwrap().output;
    assert_eq!(member(&out, "message").as_str(), Some("hi"));
    let out = BuiltinTool::run("echo", &JsonValue::Null).unwrap().output;
    assert_eq!(member(&out, "message").as_str(), Some(""));
    let not_text = JsonValue::Object(vec![("message".to_string(), JsonValue::Bool(true))]);
    let out = BuiltinTool::run("echo", &not_text).unwrap().output;
    assert_eq!(member(&out, "message").as_str(), Some(""));
}

#[test]
fn pwd_and_unknown_tools() {
    let out = BuiltinTool::run("pwd", &JsonValue::Null).unwrap().output;
    assert_eq!(member(&out, "cwd").as_str(), Some("/workspace"));
    match BuiltinTool::run("rm", &JsonValue::Null) {
        Err(e) => assert_eq!(e, "unknown tool: rm"),
        Ok(_) => panic!("rm must be unknown"),
    }
}

#[test]
fn run_tool_request_answers_with_tool_output() {
    let mut rt = AgentRuntime::new(Workspace::new("/workspace"));
    let resp = answer(rt.handle(GuestRequest::RunTool { name: "pwd".into(), input: JsonValue::Null }));
    assert!(resp.ok);
    assert_eq!(member(resp.result.as_ref().unwrap(), "cwd").as_str(), Some("/workspace"));
    let resp = answer(rt.handle(GuestRequest::RunTool { name: "nope".into(), input: JsonValue::Null }));
    assert!(!resp.ok);
    assert_eq!(resp.error.as_deref(), Some("unknown tool: nope"));
}

#[test]
fn emitted_events_are_recorded_in_order() {
    let mut rt = AgentRuntime::new(Workspace::new("/workspace"));
    let resp = answer(rt.handle(GuestRequest::EmitEvent {
        kind: "started".into(),
        payload: JsonValue::Number("1".into()),
    }));
    assert!(resp.ok);
    let result = resp.result.unwrap();
    assert!(matches!(member(&result, "recorded"), JsonValue::Bool(true)));
    let event = member(&result, "event");
    assert_eq!(member(event, "kind").as_str(), Some("started"));
    rt.handle(GuestRequest::EmitEvent { kind: "done".into(), payload: JsonValue::Null });
    let kinds: Vec<&str> = rt.events().iter().map(|e| e.kind.as_str()).collect();
    assert_eq!(kinds, vec!["started", "done"]);
}

#[test]
fn confined_read_reads_only_within_the_root() {
    let reads = std::cell::Cell::new(0);
    let read = |p: &str| {
        reads.set(reads.get() + 1);
        if p == "/srv/ws/hello.txt" { Ok("world".to_string()) } else { Err("no such file".to_string()) }
    };
    let resp = read_confined("hello.txt", "/srv/ws", "/srv/ws/hello.txt", &read);
    assert!(resp.ok);
    assert_eq!(member(resp.result.as_ref().unwrap(), "content").as_str(), Some("world"));
    assert_eq!(reads.get(), 1);
    let resp = read_confined("link", "/srv/ws", "/etc/passwd", &read);
    assert!(!resp.ok);
    assert_eq!(resp.error.as_deref(), Some("path escapes workspace: link"));
    assert_eq!(reads.get(), 1);
    let resp = read_confined("gone.txt", "/srv/ws", "/srv/ws/gone.txt", &read);
    assert_eq!(resp.error.as_deref(), Some("io: no such file"));
    assert_eq!(reads.get(), 2);
}

#[test]
fn only_emitted_events_are_recorded() {
    let mut rt = AgentRuntime::new(Workspace::new("/workspace"));
    assert!(rt.events().is_empty());
    rt.handle(GuestRequest::ReadWorkspace { path: "a.txt".into() });
    rt.handle(GuestRequest::EmitEvent { kind: "one".into(), payload: JsonValue::Null });
    rt.handle(GuestRequest::RunTool { name: "pwd".into(), input: JsonValue::Null });
    rt.handle(GuestRequest::ReadWorkspace { path: "../x".into() });
    rt.handle(GuestRequest::EmitEvent { kind: "two".into(), payload: text("p") });
    let kinds: Vec<&str> = rt.events().iter().map(|e| e.kind.as_str()).collect();
    assert_eq!(kinds, vec!["one", "two"]);
}
