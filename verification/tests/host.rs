use quick_os::agent::{AgentId, AgentRecord, AgentState, V4_BITS, V4_MASK};
use quick_os::config::{AppConfig, DispatcherConfig, FirecrackerConfig, GuestConfig, ToolsConfig};
use quick_os::dispatcher::Dispatcher;
use quick_os::environment::{check_environment, report_lines, require_environment};
use quick_os::error::{ensure_kvm, ensure_path_exists, ErrorKind, QuickOsError};
use quick_os::firecracker::{check_answer, judge_answer, ApiMethod, VmBuilder, VmStep};
use quick_os::snapshot::SnapshotRef;

fn config(max_agents: usize) -> AppConfig {
    AppConfig {
        firecracker: FirecrackerConfig {
            binary: "/usr/local/bin/firecracker".into(),
            data_dir: "/var/lib/quick-os".into(),
        },
        guest: GuestConfig {
            kernel_path: "/var/lib/quick-os/vmlinux".into(),
            rootfs_path: "/var/lib/quick-os/rootfs.ext4".into(),
            vcpu_count: 2,
            mem_size_mib: 512,
        },
        dispatcher: DispatcherConfig { base_snapshot_id: "base".into(), max_agents },
        tools: ToolsConfig { listen: "127.0.0.1:8080".into() },
    }
}

#[test]
fn config_directories() {
    let c = config(4);
    assert_eq!(c.snapshot_dir("base"), "/var/lib/quick-os/snapshots/base");
    assert_eq!(c.agents_dir(), "/var/lib/quick-os/agents");
}

#[test]
fn error_messages() {
    assert_eq!(QuickOsError::config("bad").message(), "configuration: bad");
    assert_eq!(QuickOsError::environment("x").message(), "environment: x");
    assert_eq!(QuickOsError::firecracker("x").message(), "firecracker: x");
    assert_eq!(QuickOsError::dispatcher("x").message(), "dispatcher: x");
    assert_eq!(QuickOsError::tool("x").message(), "tool: x");
    assert_eq!(QuickOsError::AgentNotFound("a".into()).message(), "agent not found: a");
    assert_eq!(QuickOsError::Io("disk".into()).message(), "disk");
    assert_eq!(QuickOsError::Toml("expected `=`".into()).message(), "expected `=`");
    assert_eq!(QuickOsError::Toml("t".into()).kind(), ErrorKind::Toml);
    assert_eq!(QuickOsError::tool("x").kind(), ErrorKind::Tool);
}

#[test]
fn prerequisite_checks() {
    let none = |_: &str| false;
    let all = |_: &str| true;
    assert!(ensure_path_exists("/x", "guest kernel", &all).is_ok());
    let e = ensure_path_exists("/x", "guest kernel", &none).unwrap_err();
    assert_eq!(e.message(), "environment: missing guest kernel: /x");
    assert!(ensure_kvm(&all).is_ok());
    assert_eq!(
        ensure_kvm(&none).unwrap_err().message(),
        "environment: /dev/kvm not found — enable KVM on the host (bare metal or privileged VM with nested virt)"
    );
    let c = config(1);
    let report = check_environment(&c, &|p: &str| p != "/var/lib/quick-os/vmlinux");
    assert!(report.kvm && report.firecracker_binary && !report.kernel && report.rootfs);
    assert!(!report.all_ok());
    let e = require_environment(&c, &|p: &str| p != "/var/lib/quick-os/vmlinux").unwrap_err();
    assert_eq!(e.message(), "environment: missing guest kernel: /var/lib/quick-os/vmlinux");
    let e = require_environment(&c, &|p: &str| p != "/dev/kvm").unwrap_err();
    assert!(e.message().starts_with("environment: /dev/kvm not found"));
    let dirs = require_environment(&c, &all).unwrap();
    assert_eq!(dirs, vec!["/var/lib/quick-os".to_string(), "/var/lib/quick-os/agents".to_string()]);
    let lines = report_lines(&report, &c);
    assert_eq!(lines[0], "quick-os environment check");
    assert_eq!(lines[1], "  /dev/kvm:              ok");
    assert_eq!(lines[3], "  guest kernel:          MISSING (/var/lib/quick-os/vmlinux)");
    assert_eq!(lines[5], "  data dir:              /var/lib/quick-os");
}

#[test]
fn snapshot_dir_is_parent_of_state_file() {
    let s = SnapshotRef::in_dir("base", "/var/lib/quick-os/snapshots/base");
    assert_eq!(s.vm_state_path, "/var/lib/quick-os/snapshots/base/vm_state.snap");
    assert_eq!(s.mem_path, "/var/lib/quick-os/snapshots/base/mem.snap");
    assert_eq!(s.dir(), "/var/lib/quick-os/snapshots/base");
    let t = SnapshotRef::in_dir("x", "rel/dir/");
    assert_eq!(t.dir(), "rel/dir");
}

#[test]
fn agent_ids_are_v4_and_hyphenated() {
    let id = AgentId::new();
    assert_eq!(id.0 & V4_MASK, V4_BITS);
    let fixed = AgentId(0x67e5_5044_10b1_426f_9247_bb68_0e5f_e0c8);
    assert_eq!(fixed.text(), "67e55044-10b1-426f-9247-bb680e5fe0c8");
    assert_ne!(AgentId::new(), AgentId::new());
}

#[test]
fn spawn_needs_snapshot_files_and_room() {
    let files_present = |p: &str| p.ends_with(".snap");
    let mut d = Dispatcher::new(config(1));
    let e = d.plan_spawn(None, &|_: &str| false).unwrap_err();
    assert_eq!(
        e.message(),
        "dispatcher: snapshot not found: base (expected files under /var/lib/quick-os/snapshots/base)"
    );
    let plan = d.plan_spawn(None, &files_present).unwrap();
    assert_eq!(plan.snapshot.id, "base");
    assert_eq!(plan.snapshot.vm_state_path, "/var/lib/quick-os/snapshots/base/vm_state.snap");
    let name = plan.agent_id.text();
    assert_eq!(plan.vm.vm_dir, format!("/var/lib/quick-os/agents/{name}"));
    assert_eq!(plan.vm.socket_path, format!("/var/lib/quick-os/agents/{name}/firecracker.sock"));
    assert_eq!(plan.steps.len(), 6);
    match &plan.steps[4] {
        VmStep::Send { socket_path, call } => {
            assert_eq!(socket_path, &plan.vm.socket_path);
            assert_eq!(call.path, "/snapshot/load");
        }
        other => panic!("{other:?}"),
    }
    match &plan.steps[5] {
        VmStep::Send { call, .. } => assert_eq!(call.path, "/actions"),
        other => panic!("{other:?}"),
    }
    let record = d.record_spawn(&plan);
    assert_eq!(record.state, AgentState::Running);
    assert_eq!(record.snapshot_id, "base");
    let listed: Vec<AgentRecord> = d.list_agents();
    assert_eq!(listed.len(), 1);
    assert_eq!(listed[0].id, plan.agent_id);
    let e = d.plan_spawn(Some("other"), &files_present).unwrap_err();
    assert_eq!(e.message(), "dispatcher: max agents (1) reached");
}

#[test]
fn recording_the_same_agent_twice_replaces_it() {
    let mut d = Dispatcher::new(config(8));
    let plan = d.plan_spawn(Some("s"), &|_: &str| true).unwrap();
    let first = d.record_spawn(&plan);
    let second = d.record_spawn(&plan);
    assert_eq!(first.id, second.id);
    let listed = d.list_agents();
    assert_eq!(listed.len(), 1);
    assert_eq!(listed[0].socket_path, plan.vm.socket_path);
    assert_eq!(listed[0].vm_dir, plan.vm.vm_dir);
}

#[test]
fn a_full_registry_has_room_only_for_its_own_agents() {
    let mut d = Dispatcher::new(config(1));
    let first = d.plan_spawn(Some("s"), &|_: &str| true).unwrap();
    let second = d.plan_spawn(Some("s"), &|_: &str| true).unwrap();
    assert!(d.has_room_for(first.agent_id));
    d.record_spawn(&first);
    assert!(d.has_room_for(first.agent_id));
    assert!(!d.has_room_for(second.agent_id));
    assert_eq!(d.full_error().message(), "dispatcher: max agents (1) reached");
    assert_eq!(d.list_agents().len(), 1);
}

#[test]
fn base_snapshot_plan() {
    let d = Dispatcher::new(config(1));
    let e = d.plan_base_snapshot("base", &|_: &str| true).unwrap_err();
    assert_eq!(e.message(), "dispatcher: snapshot already exists: base");
    let plan = d.plan_base_snapshot("base", &|_: &str| false).unwrap();
    assert_eq!(plan.snapshot_dir, "/var/lib/quick-os/snapshots/base");
    assert_eq!(plan.vm.id, "boot-base");
    assert_eq!(plan.vm.vm_dir, "/var/lib/quick-os/agents/boot-base");
    let sends: Vec<(ApiMethod, &str)> = plan
        .steps
        .iter()
        .filter_map(|s| match s {
            VmStep::Send { call, .. } => Some((call.method, call.path.as_str())),
            _ => None,
        })
        .collect();
    assert_eq!(
        sends,
        vec![
            (ApiMethod::Put, "/machine-config"),
            (ApiMethod::Put, "/boot-source"),
            (ApiMethod::Put, "/drives"),
            (ApiMethod::Put, "/actions"),
            (ApiMethod::Patch, "/vm"),
            (ApiMethod::Put, "/snapshot/create"),
        ]
    );
    assert!(matches!(plan.steps[0], VmStep::CreateDir { .. }));
    assert!(matches!(plan.steps[2], VmStep::Spawn { .. }));
    assert!(matches!(plan.steps[8], VmStep::Settle { secs: 2 }));
    match &plan.steps[9] {
        VmStep::CreateDir { path } => assert_eq!(path, "/var/lib/quick-os/snapshots/base"),
        other => panic!("{other:?}"),
    }
    let load = d.plan_spawn(Some("base"), &|_: &str| true).unwrap();
    assert_eq!(load.snapshot.vm_state_path, plan.snapshot.vm_state_path);
    assert_eq!(load.snapshot.mem_path, plan.snapshot.mem_path);
}

#[test]
fn machine_config_numbers_are_decimal() {
    let b = VmBuilder::new(config(1));
    let calls = b.boot_calls();
    let body = &calls[0].body;
    match body.get("vcpu_count") {
        Some(quick_os::json::JsonValue::Number(n)) => assert_eq!(n, "2"),
        other => panic!("{other:?}"),
    }
    match body.get("mem_size_mib") {
        Some(quick_os::json::JsonValue::Number(n)) => assert_eq!(n, "512"),
        other => panic!("{other:?}"),
    }
    assert_eq!(calls[1].body.get("boot_args").unwrap().as_str(), Some("console=ttyS0 reboot=k panic=1 pci=off"));
}

#[test]
fn api_answers_are_judged_by_status() {
    assert!(check_answer("/actions", 204, "").is_ok());
    assert!(check_answer("/actions", 200, "").is_ok());
    let e = check_answer("/actions", 400, "{\"fault_message\":\"bad\"}").unwrap_err();
    assert_eq!(e.message(), "firecracker: /actions -> 400 Bad Request: {\"fault_message\":\"bad\"}");
    let e = check_answer("/vm", 599, "x").unwrap_err();
    assert_eq!(e.message(), "firecracker: /vm -> 599 <unknown status code>: x");
    let e = judge_answer("/vm", 500, "500 Internal Server Error", "x").unwrap_err();
    assert_eq!(e.message(), "firecracker: /vm -> 500 Internal Server Error: x");
}

#[test]
fn agent_text_matches_uuid_display() {
    for bits in [0u128, u128::MAX, 0x0123_4567_89ab_cdef_fedc_ba98_7654_3210, AgentId::new().0] {
        assert_eq!(AgentId(bits).text(), uuid::Uuid::from_u128(bits).to_string());
    }
}
