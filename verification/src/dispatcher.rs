//! The dispatcher's decisions: which snapshot an agent starts from, whether
//! another agent may start, and the registry of running agents.
//!
//! Starting a VM and waiting for it is left to the caller; the dispatcher
//! plans each step and records its outcome.
use vstd::prelude::*;
use vstd::string::*;
use std::collections::HashMap;

use crate::agent::{AgentId, AgentRecord, AgentState, V4_BITS, V4_MASK};
use crate::config::{snapshot_dir_of, AppConfig};
use crate::error::{reports, ErrorKind, QuickOsError};
use crate::firecracker::{
    boot_calls, launch_steps, layout_of, lemma_boot_calls_use_configuration, lemma_launch_order,
    lemma_restore_loads_then_resumes, push_sends, restore_calls, send_steps, snapshot_calls,
    steps_view, ApiMethod, Step, VmBuilder, VmLayout, VmStep, GUEST_BOOT_SETTLE_SECS,
};
use crate::json::Json;
use crate::path::join;
use crate::snapshot::{snapshot_in, SnapshotRef, MEM_FILE, VM_STATE_FILE};
use crate::text::{concat2, concat4, decimal, decimal_string};

verus! {

/// No two records share an identifier.
pub open spec fn distinct_ids(agents: Seq<AgentRecord>) -> bool {
    forall|i: int, j: int| 0 <= i < j < agents.len() ==> agents[i].id != agents[j].id
}

/// Every record is registered under the bits of its own identifier.
pub open spec fn keyed_by_id(agents: Map<u128, AgentRecord>) -> bool {
    forall|k: u128| #[trigger] agents.contains_key(k) ==> agents[k].id.0 == k
}

/// A record for `id` may be stored: there is room, or `id` is already
/// registered (its record is then replaced).
pub open spec fn has_room(agents: Map<u128, AgentRecord>, max_agents: nat, id: AgentId) -> bool {
    agents.len() < max_agents || agents.contains_key(id.0)
}

/// What `snapshot_not_found` reports.
pub open spec fn not_found_text(id: Seq<char>, dir: Seq<char>) -> Seq<char> {
    "snapshot not found: "@ + id + " (expected files under "@ + dir + ")"@
}

/// What a full dispatcher reports.
pub open spec fn full_text(max_agents: nat) -> Seq<char> {
    "max agents ("@ + decimal(max_agents) + ") reached"@
}

/// What a second snapshot under one name reports.
pub open spec fn exists_text(id: Seq<char>) -> Seq<char> {
    "snapshot already exists: "@ + id
}

/// Everything needed to start an agent from a snapshot: its identifier,
/// the snapshot, where its VM lives and the steps that bring the VM up.
#[derive(Debug)]
pub struct SpawnPlan {
    pub agent_id: AgentId,
    pub snapshot: SnapshotRef,
    pub vm: VmLayout,
    pub steps: Vec<VmStep>,
}

/// Everything needed to take a base snapshot: the snapshot it makes, its
/// directory, where the booting VM lives and the steps that boot it and
/// snapshot it.
#[derive(Debug)]
pub struct SnapshotPlan {
    pub snapshot: SnapshotRef,
    pub snapshot_dir: String,
    pub vm: VmLayout,
    pub steps: Vec<VmStep>,
}

/// Taking a base snapshot into `dir` with a VM at `vm_dir`/`socket`: boot
/// it, let it settle, make the directory, then pause it and write the
/// snapshot.
pub open spec fn base_snapshot_steps(
    config: AppConfig,
    vm_dir: Seq<char>,
    socket: Seq<char>,
    dir: Seq<char>,
) -> Seq<Step> {
    launch_steps(config.firecracker.binary@, vm_dir, socket, boot_calls(config)) + seq![
        Step::Settle { secs: GUEST_BOOT_SETTLE_SECS },
        Step::CreateDir { path: dir },
    ] + send_steps(socket, snapshot_calls(join(dir, VM_STATE_FILE@), join(dir, MEM_FILE@)))
}

/// The agents running, and the configuration they are started with.
pub struct Dispatcher {
    config: AppConfig,
    builder: VmBuilder,
    agents: HashMap<u128, AgentRecord>,
}

impl Dispatcher {
    /// Records are keyed by their identifiers, and no more than `max_agents`
    /// are running.
    #[verifier::type_invariant]
    spec fn well_formed(self) -> bool {
        &&& keyed_by_id(self.agents@)
        &&& self.agents@.len() <= self.config.dispatcher.max_agents
        &&& self.builder.config_of() == self.config
    }

    pub closed spec fn config_of(&self) -> AppConfig {
        self.config
    }

    /// The running agents, by the bits of their identifiers.
    pub closed spec fn agents_of(&self) -> Map<u128, AgentRecord> {
        self.agents@
    }

    pub fn new(config: AppConfig) -> (r: Dispatcher)
        ensures
            r.config_of() == config,
            r.agents_of() == Map::<u128, AgentRecord>::empty(),
    {
        broadcast use vstd::std_specs::hash::group_hash_axioms;
        let builder = VmBuilder::new(config.clone());
        let agents: HashMap<u128, AgentRecord> = HashMap::new();
        assert(agents@.len() == 0);
        Dispatcher { config, builder, agents }
    }

    pub fn config(&self) -> (r: &AppConfig)
        ensures
            *r == self.config_of(),
    {
        &self.config
    }

    /// Copies of the records of all running agents, in no particular order:
    /// each once, at most `max_agents` of them.
    pub fn list_agents(&self) -> (r: Vec<AgentRecord>)
        ensures
            r@.len() == self.agents_of().len(),
            r@.len() <= self.config_of().dispatcher.max_agents,
            distinct_ids(r@),
            forall|i: int|
                0 <= i < r@.len() ==> self.agents_of().contains_key(#[trigger] r@[i].id.0)
                    && self.agents_of()[r@[i].id.0] == r@[i],
            forall|k: u128|
                #[trigger] self.agents_of().contains_key(k) ==> r@.contains(self.agents_of()[k]),
    {
        broadcast use vstd::std_specs::hash::group_hash_axioms;
        proof {
            use_type_invariant(self);
        }
        let ghost m = self.agents@;
        let mut out: Vec<AgentRecord> = Vec::new();
        for kv in it: self.agents.iter()
            invariant
                m == self.agents@,
                keyed_by_id(m),
                out@.len() == it.index(),
                forall|j: int| 0 <= j < out@.len() ==> out@[j] == *(#[trigger] it.seq()[j]).1,
                forall|j: int|
                    0 <= j < it.seq().len() ==> m.contains_key(*it.seq()[j].0) && m[*it.seq()[j].0]
                        == *it.seq()[j].1,
                it.seq().no_duplicates(),
                it.seq().len() == m.len(),
                forall|k: u128| #[trigger] m.contains_key(k) ==> it.seq().contains((&k, &m[k])),
                forall|j: int|
                    0 <= j < out@.len() ==> m.contains_key(#[trigger] out@[j].id.0) && m[out@[j].id.0]
                        == out@[j],
                distinct_ids(out@),
        {
            let ghost n = out@.len() as int;
            let ghost entry = it.seq()[n];
            let record = kv.1.clone();
            proof {
                assert(m.contains_key(*entry.0));
                assert(record.id.0 == *entry.0);
                assert forall|j: int| 0 <= j < n implies out@[j].id != record.id by {
                    let other = it.seq()[j];
                    assert(out@[j] == *other.1);
                    if out@[j].id == record.id {
                        assert(*other.0 == *entry.0);
                        assert(other == entry);
                        assert(false);
                    }
                }
            }
            out.push(record);
        }
        out
    }

    /// The error a full dispatcher answers a spawn with.
    pub fn full_error(&self) -> (e: QuickOsError)
        ensures
            e@ == (ErrorKind::Dispatcher, full_text(self.config_of().dispatcher.max_agents as nat)),
    {
        let max = self.config.dispatcher.max_agents;
        let mut m = concat2("max agents (", decimal_string(max as u64).as_str());
        m.append(") reached");
        QuickOsError::Dispatcher(m)
    }

    /// Whether a record for `id` may be stored now.
    pub fn has_room_for(&self, id: AgentId) -> (r: bool)
        ensures
            r == has_room(self.agents_of(), self.config_of().dispatcher.max_agents as nat, id),
    {
        broadcast use vstd::std_specs::hash::group_hash_axioms;
        self.agents.len() < self.config.dispatcher.max_agents || self.agents.contains_key(&id.0)
    }

    /// The snapshot named `snapshot_id`, when `present_at` finds both its
    /// files; otherwise a dispatcher error that names the directory looked in.
    pub fn load_snapshot_ref<F: Fn(&str) -> bool>(&self, snapshot_id: &str, present_at: &F) -> (r:
        Result<SnapshotRef, QuickOsError>)
        requires
            forall|p: &str| #[trigger] present_at.requires((p,)),
        ensures
            ({
                let dir = snapshot_dir_of(self.config_of().firecracker.data_dir@, snapshot_id@);
                &&& r matches Ok(s) ==> {
                    &&& snapshot_in(s, snapshot_id@, dir)
                    &&& reports(*present_at, join(dir, VM_STATE_FILE@), true)
                    &&& reports(*present_at, join(dir, MEM_FILE@), true)
                }
                &&& r matches Err(e) ==> {
                    &&& e@ == (ErrorKind::Dispatcher, not_found_text(snapshot_id@, dir))
                    &&& (reports(*present_at, join(dir, VM_STATE_FILE@), false) || reports(
                        *present_at,
                        join(dir, MEM_FILE@),
                        false,
                    ))
                }
            }),
    {
        let dir = self.config.snapshot_dir(snapshot_id);
        let snapshot = SnapshotRef::in_dir(snapshot_id, dir.as_str());
        let vm_present = present_at(snapshot.vm_state_path.as_str());
        if !vm_present {
            let mut m = concat4("snapshot not found: ", snapshot_id, " (expected files under ", dir.as_str());
            m.append(")");
            return Err(QuickOsError::Dispatcher(m));
        }
        let mem_present = present_at(snapshot.mem_path.as_str());
        if !mem_present {
            let mut m = concat4("snapshot not found: ", snapshot_id, " (expected files under ", dir.as_str());
            m.append(")");
            return Err(QuickOsError::Dispatcher(m));
        }
        Ok(snapshot)
    }

    /// Plans the start of an agent from snapshot `snapshot_id` (the
    /// configured base snapshot when none is named): the snapshot's files
    /// must be present and fewer than `max_agents` agents running. The plan
    /// carries a fresh identifier, the new VM's place and the API calls that
    /// restore it.
    pub fn plan_spawn<F: Fn(&str) -> bool>(&self, snapshot_id: Option<&str>, present_at: &F) -> (r:
        Result<SpawnPlan, QuickOsError>)
        requires
            forall|p: &str| #[trigger] present_at.requires((p,)),
        ensures
            ({
                let data_dir = self.config_of().firecracker.data_dir@;
                let id = match snapshot_id {
                    Some(s) => s@,
                    None => self.config_of().dispatcher.base_snapshot_id@,
                };
                let dir = snapshot_dir_of(data_dir, id);
                let files = reports(*present_at, join(dir, VM_STATE_FILE@), true) && reports(
                    *present_at,
                    join(dir, MEM_FILE@),
                    true,
                );
                let missing = reports(*present_at, join(dir, VM_STATE_FILE@), false) || reports(
                    *present_at,
                    join(dir, MEM_FILE@),
                    false,
                );
                let full = self.agents_of().len() >= self.config_of().dispatcher.max_agents;
                &&& r matches Ok(plan) ==> {
                    &&& files
                    &&& !full
                    &&& snapshot_in(plan.snapshot, id, dir)
                    &&& plan.agent_id.0 & V4_MASK == V4_BITS
                    &&& layout_of(data_dir, uuid_text_of(plan.agent_id), plan.vm)
                    &&& steps_view(plan.steps@) == launch_steps(
                        self.config_of().firecracker.binary@,
                        plan.vm.vm_dir@,
                        plan.vm.socket_path@,
                        restore_calls(plan.snapshot.vm_state_path@, plan.snapshot.mem_path@),
                    )
                }
                &&& r matches Err(e) ==> {
                    ||| (missing && e@ == (ErrorKind::Dispatcher, not_found_text(id, dir)))
                    ||| (files && full && e@ == (ErrorKind::Dispatcher, full_text(
                        self.config_of().dispatcher.max_agents as nat,
                    )))
                }
            }),
    {
        proof {
            use_type_invariant(self);
        }
        let id: &str = match snapshot_id {
            Some(s) => s,
            None => self.config.dispatcher.base_snapshot_id.as_str(),
        };
        let snapshot = self.load_snapshot_ref(id, present_at)?;
        let max = self.config.dispatcher.max_agents;
        broadcast use vstd::std_specs::hash::group_hash_axioms;
        if self.agents.len() >= max {
            return Err(self.full_error());
        }
        let agent_id = AgentId::new();
        let name = agent_id.text();
        let vm = self.builder.layout(name.as_str());
        let calls = self.builder.restore_calls(
            snapshot.vm_state_path.as_str(),
            snapshot.mem_path.as_str(),
        );
        let steps = self.builder.launch_steps(&vm, &calls);
        Ok(SpawnPlan { agent_id, snapshot, vm, steps })
    }

    /// Records an agent started by `plan`, running in the VM the plan laid
    /// out, and returns its record. The record is registered under its
    /// identifier, replacing one with the same identifier.
    pub fn record_spawn(&mut self, plan: &SpawnPlan) -> (r: AgentRecord)
        requires
            has_room(
                old(self).agents_of(),
                old(self).config_of().dispatcher.max_agents as nat,
                plan.agent_id,
            ),
        ensures
            r.id == plan.agent_id,
            r.state == AgentState::Running,
            r.snapshot_id@ == plan.snapshot.id@,
            r.socket_path@ == plan.vm.socket_path@,
            r.vm_dir@ == plan.vm.vm_dir@,
            final(self).agents_of() == old(self).agents_of().insert(plan.agent_id.0, r),
            final(self).config_of() == old(self).config_of(),
    {
        broadcast use vstd::std_specs::hash::group_hash_axioms;
        proof {
            use_type_invariant(&*self);
        }
        let record = AgentRecord {
            id: plan.agent_id,
            state: AgentState::Running,
            snapshot_id: plan.snapshot.id.clone(),
            socket_path: plan.vm.socket_path.clone(),
            vm_dir: plan.vm.vm_dir.clone(),
        };
        let result = record.clone();
        let ghost before = self.agents@;
        let mut agents: HashMap<u128, AgentRecord> = HashMap::new();
        std::mem::swap(&mut agents, &mut self.agents);
        agents.insert(plan.agent_id.0, record);
        proof {
            assert(agents@ == before.insert(plan.agent_id.0, result));
            if before.contains_key(plan.agent_id.0) {
                assert(agents@.dom() =~= before.dom());
            } else {
                assert(agents@.dom() =~= before.dom().insert(plan.agent_id.0));
            }
            assert(keyed_by_id(agents@));
        }
        self.agents = agents;
        result
    }

    /// Plans a base snapshot named `snapshot_id`: refused when its directory
    /// already exists; otherwise a fresh VM named `boot-<id>` is booted and
    /// snapshotted into the directory.
    pub fn plan_base_snapshot<F: Fn(&str) -> bool>(&self, snapshot_id: &str, present_at: &F) -> (r:
        Result<SnapshotPlan, QuickOsError>)
        requires
            forall|p: &str| #[trigger] present_at.requires((p,)),
        ensures
            ({
                let data_dir = self.config_of().firecracker.data_dir@;
                let dir = snapshot_dir_of(data_dir, snapshot_id@);
                &&& r matches Ok(plan) ==> {
                    &&& reports(*present_at, dir, false)
                    &&& plan.snapshot_dir@ == dir
                    &&& snapshot_in(plan.snapshot, snapshot_id@, dir)
                    &&& layout_of(data_dir, "boot-"@ + snapshot_id@, plan.vm)
                    &&& steps_view(plan.steps@) == base_snapshot_steps(
                        self.config_of(),
                        plan.vm.vm_dir@,
                        plan.vm.socket_path@,
                        dir,
                    )
                }
                &&& r matches Err(e) ==> {
                    &&& reports(*present_at, dir, true)
                    &&& e@ == (ErrorKind::Dispatcher, exists_text(snapshot_id@))
                }
            }),
    {
        proof {
            use_type_invariant(self);
        }
        let dir = self.config.snapshot_dir(snapshot_id);
        if present_at(dir.as_str()) {
            return Err(QuickOsError::Dispatcher(concat2("snapshot already exists: ", snapshot_id)));
        }
        let boot_id = concat2("boot-", snapshot_id);
        let vm = self.builder.layout(boot_id.as_str());
        let boot = self.builder.boot_calls();
        let snap = self.builder.snapshot_calls(dir.as_str());
        let mut steps = self.builder.launch_steps(&vm, &boot);
        let ghost booted = steps_view(steps@);
        steps.push(VmStep::Settle { secs: GUEST_BOOT_SETTLE_SECS });
        steps.push(VmStep::CreateDir { path: dir.clone() });
        assert(steps_view(steps@) =~= booted + seq![
            Step::Settle { secs: GUEST_BOOT_SETTLE_SECS },
            Step::CreateDir { path: dir@ },
        ]);
        push_sends(&mut steps, vm.socket_path.as_str(), &snap);
        let snapshot = SnapshotRef::in_dir(snapshot_id, dir.as_str());
        Ok(SnapshotPlan { snapshot, snapshot_dir: dir, vm, steps })
    }
}

/// The hyphenated text of an agent's identifier.
pub open spec fn uuid_text_of(id: AgentId) -> Seq<char> {
    crate::agent::uuid_text(id.0)
}

} // verus!

verus! {

/// Law (snapshot and fork): the snapshot that a base snapshot named `id`
/// reports and the snapshot that a spawn from `id` loads are the same files,
/// and the restore calls load exactly the files the snapshot calls write.
pub proof fn lemma_spawn_loads_snapshot_files(
    data_dir: Seq<char>,
    id: Seq<char>,
    written: SnapshotRef,
    loaded: SnapshotRef,
)
    requires
        snapshot_in(written, id, snapshot_dir_of(data_dir, id)),
        snapshot_in(loaded, id, snapshot_dir_of(data_dir, id)),
    ensures
        loaded.vm_state_path@ == written.vm_state_path@,
        loaded.mem_path@ == written.mem_path@,
        ({
            let dir = snapshot_dir_of(data_dir, id);
            let create = snapshot_calls(join(dir, VM_STATE_FILE@), join(dir, MEM_FILE@))[1].2;
            let load = restore_calls(loaded.vm_state_path@, loaded.mem_path@)[0].2;
            &&& create.get("snapshot_path"@) == load.get("snapshot_path"@)
            &&& create.get("mem_file_path"@) == load.get("mem_file_path"@)
            &&& create.get("snapshot_path"@) == Some(Json::Str(written.vm_state_path@))
            &&& create.get("mem_file_path"@) == Some(Json::Str(written.mem_path@))
        }),
{
    let dir = snapshot_dir_of(data_dir, id);
    let create = snapshot_calls(join(dir, VM_STATE_FILE@), join(dir, MEM_FILE@))[1].2;
    let load = restore_calls(loaded.vm_state_path@, loaded.mem_path@)[0].2;
    reveal_strlit("snapshot_type");
    reveal_strlit("snapshot_path");
    reveal_strlit("mem_file_path");
    reveal_strlit("enable_diff_snapshots");
    let cf = create->Object_0;
    let lf = load->Object_0;
    assert(cf[0].0[9] != "snapshot_path"@[9]);
    assert(cf[0].0[0] != "mem_file_path"@[0]);
    assert(cf[1].0[0] != "mem_file_path"@[0]);
    assert(lf[0].0[0] != "mem_file_path"@[0]);
    assert(cf[0].0 != "snapshot_path"@);
    assert(cf[0].0 != "mem_file_path"@);
    assert(cf[1].0 != "mem_file_path"@);
    assert(lf[0].0 != "mem_file_path"@);
    assert(crate::json::first_member(cf, "snapshot_path"@, 1) == 1);
    assert(crate::json::first_member(cf, "snapshot_path"@, 0) == 1);
    assert(crate::json::first_member(lf, "snapshot_path"@, 0) == 0);
    assert(crate::json::first_member(cf, "mem_file_path"@, 0) == 2) by {
        assert(crate::json::first_member(cf, "mem_file_path"@, 2) == 2);
        assert(crate::json::first_member(cf, "mem_file_path"@, 1) == 2);
    }
    assert(crate::json::first_member(lf, "mem_file_path"@, 1) == 1);
    assert(crate::json::first_member(lf, "mem_file_path"@, 0) == 1);
}

/// Law: the steps that a spawn plans bring the VM up and then, on its
/// socket, load the snapshot's state and memory files and finally resume the
/// VM with `PUT /actions` `Resume`; no other step follows.
pub proof fn lemma_spawn_ends_resumed(
    binary: Seq<char>,
    vm_dir: Seq<char>,
    socket: Seq<char>,
    vm_state_path: Seq<char>,
    mem_path: Seq<char>,
)
    ensures
        ({
            let steps = launch_steps(binary, vm_dir, socket, restore_calls(vm_state_path, mem_path));
            &&& steps.len() == 6
            &&& steps[4] matches Step::Send { socket_path, call } && socket_path == socket
                && call.0 == ApiMethod::Put && call.1 == "/snapshot/load"@ && call.2.get(
                "snapshot_path"@,
            ) == Some(Json::Str(vm_state_path)) && call.2.get("mem_file_path"@) == Some(
                Json::Str(mem_path),
            )
            &&& steps[5] == (Step::Send {
                socket_path: socket,
                call: (
                    ApiMethod::Put,
                    "/actions"@,
                    Json::Object(seq![("action_type"@, Json::Str("Resume"@))]),
                ),
            })
        }),
{
    let calls = restore_calls(vm_state_path, mem_path);
    lemma_restore_loads_then_resumes(vm_state_path, mem_path);
    lemma_launch_order(binary, vm_dir, socket, calls);
    assert(launch_steps(binary, vm_dir, socket, calls)[4int] == (Step::Send {
        socket_path: socket,
        call: calls[0],
    }));
    assert(launch_steps(binary, vm_dir, socket, calls)[5int] == (Step::Send {
        socket_path: socket,
        call: calls[1],
    }));
}

/// Law: the steps that a base snapshot plans boot the VM with the boot
/// calls, let it settle for two seconds, make the snapshot directory, and
/// then, on the VM's socket, pause it and write a full snapshot into
/// `vm_state.snap` and `mem.snap` in that directory.
pub proof fn lemma_base_snapshot_order(
    config: AppConfig,
    vm_dir: Seq<char>,
    socket: Seq<char>,
    dir: Seq<char>,
)
    ensures
        ({
            let steps = base_snapshot_steps(config, vm_dir, socket, dir);
            &&& steps.len() == 12
            &&& forall|i: int|
                0 <= i < 4 ==> steps[4 + i] == (Step::Send {
                    socket_path: socket,
                    call: #[trigger] boot_calls(config)[i],
                })
            &&& steps[8] == (Step::Settle { secs: 2 })
            &&& steps[9] == (Step::CreateDir { path: dir })
            &&& steps[10] == (Step::Send {
                socket_path: socket,
                call: snapshot_calls(join(dir, "vm_state.snap"@), join(dir, "mem.snap"@))[0],
            })
            &&& steps[11] == (Step::Send {
                socket_path: socket,
                call: snapshot_calls(join(dir, "vm_state.snap"@), join(dir, "mem.snap"@))[1],
            })
        }),
{
    lemma_boot_calls_use_configuration(config);
    lemma_launch_order(config.firecracker.binary@, vm_dir, socket, boot_calls(config));
}

} // verus!
