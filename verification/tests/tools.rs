use quick_os::agent::{AgentId, AgentRecord, AgentState};
use quick_os::json::JsonValue;
use quick_os::observe::{EventLog, ToolEvent};
use quick_os::registry::{plan_invocation, Invocation, InvocationOutcome, ToolRegistry};

fn invoked(id: u128) -> ToolEvent {
    ToolEvent::ToolInvoked { id, tool: "t".into(), input: JsonValue::Null }
}

fn ids(log: &EventLog) -> Vec<u128> {
    log.list()
        .iter()
        .map(|e| match e {
            ToolEvent::ToolInvoked { id, .. } => *id,
            _ => u128::MAX,
        })
        .collect()
}

#[test]
fn builtin_tools_are_listed() {
    let registry = ToolRegistry::new(EventLog::new(64));
    let tools = registry.list_tools();
    let names: Vec<&str> = tools.iter().map(|t| t.name.as_str()).collect();
    assert_eq!(names, vec!["agents.list", "agents.spawn", "snapshots.create"]);
    let required = tools[2].input_schema.get("required").unwrap();
    match required {
        JsonValue::Array(items) => assert_eq!(items[0].as_str(), Some("snapshot_id")),
        other => panic!("{other:?}"),
    }
}

#[test]
fn event_log_keeps_newest_events() {
    let mut log = EventLog::new(3);
    for i in 0..5u128 {
        log.push(invoked(i));
    }
    assert_eq!(ids(&log), vec![2, 3, 4]);
    let mut zero = EventLog::new(0);
    zero.push(invoked(7));
    zero.push(invoked(8));
    assert_eq!(ids(&zero), vec![8]);
}

#[test]
fn invocations_are_planned_from_name_and_input() {
    assert!(matches!(plan_invocation("agents.list", &JsonValue::Null), Ok(Invocation::ListAgents)));
    let with_id = JsonValue::Object(vec![("snapshot_id".into(), JsonValue::Str("base".into()))]);
    match plan_invocation("agents.spawn", &with_id) {
        Ok(Invocation::SpawnAgent { snapshot_id }) => assert_eq!(snapshot_id.as_deref(), Some("base")),
        other => panic!("{other:?}"),
    }
    match plan_invocation("agents.spawn", &JsonValue::Null) {
        Ok(Invocation::SpawnAgent { snapshot_id }) => assert!(snapshot_id.is_none()),
        other => panic!("{other:?}"),
    }
    let e = plan_invocation("snapshots.create", &JsonValue::Null).unwrap_err();
    assert_eq!(e.message(), "tool: missing snapshot_id");
    let e = plan_invocation("vm.destroy", &JsonValue::Null).unwrap_err();
    assert_eq!(e.message(), "tool: unknown tool: vm.destroy");
}

#[test]
fn a_call_logs_invocation_spawn_and_completion() {
    let mut registry = ToolRegistry::new(EventLog::new(16));
    let inv = registry.begin_invocation(5, "agents.spawn", &JsonValue::Null).unwrap();
    assert!(matches!(inv, Invocation::SpawnAgent { .. }));
    let record = AgentRecord {
        id: AgentId(1),
        state: AgentState::Running,
        snapshot_id: "base".into(),
        socket_path: "s".into(),
        vm_dir: "d".into(),
    };
    let resp = registry.complete_invocation(5, "agents.spawn", InvocationOutcome::Spawned(record));
    assert_eq!(resp.id, 5);
    let agent = resp.output.get("agent").unwrap();
    assert_eq!(agent.get("id").unwrap().as_str(), Some("00000000-0000-0000-0000-000000000001"));
    assert_eq!(agent.get("state").unwrap().as_str(), Some("Running"));
    let events = registry.events().list();
    assert_eq!(events.len(), 3);
    assert!(matches!(events[0], ToolEvent::ToolInvoked { id: 5, .. }));
    assert!(matches!(events[1], ToolEvent::AgentSpawned { .. }));
    assert!(matches!(events[2], ToolEvent::ToolCompleted { id: 5, .. }));
}

#[test]
fn a_failed_call_logs_only_its_invocation() {
    let mut registry = ToolRegistry::new(EventLog::new(16));
    assert!(registry.begin_invocation(9, "nope", &JsonValue::Null).is_err());
    let events = registry.events().list();
    assert_eq!(events.len(), 1);
    assert!(matches!(events[0], ToolEvent::ToolInvoked { id: 9, .. }));
}

#[test]
fn events_are_tagged_by_type_in_json() {
    let e = ToolEvent::ToolFailed { id: 0x10, tool: "agents.spawn".into(), error: "boom".into() };
    let j = e.to_json();
    assert_eq!(j.get("type").unwrap().as_str(), Some("tool_failed"));
    assert_eq!(j.get("id").unwrap().as_str(), Some("00000000-0000-0000-0000-000000000010"));
    assert_eq!(j.get("error").unwrap().as_str(), Some("boom"));
    let e = ToolEvent::ToolInvoked { id: 1, tool: "agents.list".into(), input: JsonValue::Null };
    assert_eq!(e.to_json().get("type").unwrap().as_str(), Some("tool_invoked"));
    assert!(matches!(e.to_json().get("input"), Some(JsonValue::Null)));
}
