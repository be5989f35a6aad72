//! What the host asks of Firecracker: where a VM lives, which API calls boot,
//! restore and snapshot it, and how an API answer is judged.
use vstd::prelude::*;
use vstd::string::*;

use crate::config::{agents_dir_of, AppConfig};
use crate::error::{ErrorKind, QuickOsError};
use crate::json::{lemma_get_first, Json, JsonValue};
use crate::path::{join, path_join};
use crate::text::{concat2, concat4, decimal, decimal_string};

verus! {

/// Seconds to let a fresh guest boot before it is snapshotted.
pub const GUEST_BOOT_SETTLE_SECS: u64 = 2;

/// How often the API socket is looked for before a VM is given up.
pub const SOCKET_WAIT_ATTEMPTS: u32 = 50;

/// Milliseconds between two looks for the API socket.
pub const SOCKET_WAIT_INTERVAL_MS: u64 = 100;

/// File name of the API socket in a VM directory.
pub const API_SOCKET_FILE: &'static str = "firecracker.sock";

/// Kernel command line of a fresh guest.
pub const BOOT_ARGS: &'static str = "console=ttyS0 reboot=k panic=1 pci=off";

#[derive(Debug)]
pub struct MachineConfig {
    pub vcpu_count: u8,
    pub mem_size_mib: u32,
    pub smt: bool,
    pub track_dirty_pages: bool,
}

#[derive(Debug)]
pub struct BootSource {
    pub kernel_image_path: String,
    pub boot_args: String,
}

#[derive(Debug)]
pub struct Drive {
    pub drive_id: String,
    pub path_on_host: String,
    pub is_root_device: bool,
    pub is_read_only: bool,
}

pub open spec fn number_json(n: nat) -> Json {
    Json::Number(decimal(n))
}

pub open spec fn machine_config_json(m: MachineConfig) -> Json {
    Json::Object(
        seq![
            ("vcpu_count"@, number_json(m.vcpu_count as nat)),
            ("mem_size_mib"@, number_json(m.mem_size_mib as nat)),
            ("smt"@, Json::Bool(m.smt)),
            ("track_dirty_pages"@, Json::Bool(m.track_dirty_pages)),
        ],
    )
}

pub open spec fn boot_source_json(b: BootSource) -> Json {
    Json::Object(
        seq![
            ("kernel_image_path"@, Json::Str(b.kernel_image_path@)),
            ("boot_args"@, Json::Str(b.boot_args@)),
        ],
    )
}

pub open spec fn drive_json(d: Drive) -> Json {
    Json::Object(
        seq![
            ("drive_id"@, Json::Str(d.drive_id@)),
            ("path_on_host"@, Json::Str(d.path_on_host@)),
            ("is_root_device"@, Json::Bool(d.is_root_device)),
            ("is_read_only"@, Json::Bool(d.is_read_only)),
        ],
    )
}

fn fields_json(fields: Vec<(String, JsonValue)>) -> (r: JsonValue)
    ensures
        r@ == Json::Object(fields@.map_values(|f: (String, JsonValue)| (f.0@, f.1@))),
{
    let ghost f = fields@;
    let r = JsonValue::Object(fields);
    assert(r@->Object_0 =~= f.map_values(|f: (String, JsonValue)| (f.0@, f.1@))) by {
        assert forall|k: int| 0 <= k < f.len() implies r@->Object_0[k] == (f[k].0@, f[k].1@) by {
            assert(r@->Object_0[k] == (f[k].0@, f[k].1.view_of()));
        }
    }
    r
}

fn member(name: &str, value: JsonValue) -> (r: (String, JsonValue))
    ensures
        r.0@ == name@,
        r.1@ == value@,
{
    (String::from_str(name), value)
}

impl MachineConfig {
    pub fn to_json(&self) -> (r: JsonValue)
        ensures
            r@ == machine_config_json(*self),
    {
        let mut v: Vec<(String, JsonValue)> = Vec::new();
        v.push(member("vcpu_count", JsonValue::Number(decimal_string(self.vcpu_count as u64))));
        v.push(member("mem_size_mib", JsonValue::Number(decimal_string(self.mem_size_mib as u64))));
        v.push(member("smt", JsonValue::Bool(self.smt)));
        v.push(member("track_dirty_pages", JsonValue::Bool(self.track_dirty_pages)));
        let r = fields_json(v);
        assert(r@->Object_0 =~= machine_config_json(*self)->Object_0);
        r
    }
}

impl BootSource {
    pub fn to_json(&self) -> (r: JsonValue)
        ensures
            r@ == boot_source_json(*self),
    {
        JsonValue::object2(
            "kernel_image_path",
            JsonValue::Str(self.kernel_image_path.clone()),
            "boot_args",
            JsonValue::Str(self.boot_args.clone()),
        )
    }
}

impl Drive {
    pub fn to_json(&self) -> (r: JsonValue)
        ensures
            r@ == drive_json(*self),
    {
        let mut v: Vec<(String, JsonValue)> = Vec::new();
        v.push(member("drive_id", JsonValue::Str(self.drive_id.clone())));
        v.push(member("path_on_host", JsonValue::Str(self.path_on_host.clone())));
        v.push(member("is_root_device", JsonValue::Bool(self.is_root_device)));
        v.push(member("is_read_only", JsonValue::Bool(self.is_read_only)));
        let r = fields_json(v);
        assert(r@->Object_0 =~= drive_json(*self)->Object_0);
        r
    }
}

/// HTTP method of an API call.
#[derive(Clone, Copy, Debug, PartialEq, Eq, Structural)]
pub enum ApiMethod {
    Put,
    Patch,
}

/// One call of the Firecracker API: method, path and JSON body.
#[derive(Debug)]
pub struct ApiCall {
    pub method: ApiMethod,
    pub path: String,
    pub body: JsonValue,
}

impl View for ApiCall {
    type V = (ApiMethod, Seq<char>, Json);

    open spec fn view(&self) -> (ApiMethod, Seq<char>, Json) {
        (self.method, self.path@, self.body@)
    }
}

pub open spec fn calls_view(calls: Seq<ApiCall>) -> Seq<(ApiMethod, Seq<char>, Json)> {
    calls.map_values(|c: ApiCall| c@)
}

fn api_call(method: ApiMethod, path: &str, body: JsonValue) -> (r: ApiCall)
    ensures
        r@ == (method, path@, body@),
{
    ApiCall { method, path: String::from_str(path), body }
}

/// Body of an `/actions` call.
pub open spec fn action_json(action_type: Seq<char>) -> Json {
    Json::Object(seq![("action_type"@, Json::Str(action_type))])
}

/// Where a VM lives on the host.
#[derive(Debug)]
pub struct VmLayout {
    pub id: String,
    pub vm_dir: String,
    pub socket_path: String,
}

/// `agents_dir/<id>` and the API socket in it.
pub open spec fn layout_of(data_dir: Seq<char>, id: Seq<char>, layout: VmLayout) -> bool {
    &&& layout.id@ == id
    &&& layout.vm_dir@ == join(agents_dir_of(data_dir), id)
    &&& layout.socket_path@ == join(layout.vm_dir@, API_SOCKET_FILE@)
}

/// The calls that configure and start a fresh VM, in order.
pub open spec fn boot_calls(config: AppConfig) -> Seq<(ApiMethod, Seq<char>, Json)> {
    seq![
        (ApiMethod::Put, "/machine-config"@, machine_config_json(MachineConfig {
            vcpu_count: config.guest.vcpu_count,
            mem_size_mib: config.guest.mem_size_mib,
            smt: false,
            track_dirty_pages: false,
        })),
        (ApiMethod::Put, "/boot-source"@, Json::Object(
            seq![
                ("kernel_image_path"@, Json::Str(config.guest.kernel_path@)),
                ("boot_args"@, Json::Str(BOOT_ARGS@)),
            ],
        )),
        (ApiMethod::Put, "/drives"@, Json::Object(
            seq![
                ("drive_id"@, Json::Str("rootfs"@)),
                ("path_on_host"@, Json::Str(config.guest.rootfs_path@)),
                ("is_root_device"@, Json::Bool(true)),
                ("is_read_only"@, Json::Bool(false)),
            ],
        )),
        (ApiMethod::Put, "/actions"@, action_json("InstanceStart"@)),
    ]
}

/// The calls that load a snapshot into a new VM and resume it, in order.
pub open spec fn restore_calls(snapshot_path: Seq<char>, mem_path: Seq<char>) -> Seq<
    (ApiMethod, Seq<char>, Json),
> {
    seq![
        (ApiMethod::Put, "/snapshot/load"@, Json::Object(
            seq![
                ("snapshot_path"@, Json::Str(snapshot_path)),
                ("mem_file_path"@, Json::Str(mem_path)),
                ("enable_diff_snapshots"@, Json::Bool(true)),
            ],
        )),
        (ApiMethod::Put, "/actions"@, action_json("Resume"@)),
    ]
}

/// The calls that pause a VM and write a full snapshot of it, in order.
pub open spec fn snapshot_calls(vm_state_path: Seq<char>, mem_path: Seq<char>) -> Seq<
    (ApiMethod, Seq<char>, Json),
> {
    seq![
        (ApiMethod::Patch, "/vm"@, Json::Object(seq![("state"@, Json::Str("Paused"@))])),
        (ApiMethod::Put, "/snapshot/create"@, Json::Object(
            seq![
                ("snapshot_type"@, Json::Str("Full"@)),
                ("snapshot_path"@, Json::Str(vm_state_path)),
                ("mem_file_path"@, Json::Str(mem_path)),
            ],
        )),
    ]
}

/// Builds VMs from the host configuration.
pub struct VmBuilder {
    config: AppConfig,
}

impl VmBuilder {
    pub closed spec fn config_of(&self) -> AppConfig {
        self.config
    }

    pub fn new(config: AppConfig) -> (r: VmBuilder)
        ensures
            r.config_of() == config,
    {
        VmBuilder { config }
    }

    /// Where VM `id` lives: a directory of its own under the agents
    /// directory, with its API socket in it.
    pub fn layout(&self, id: &str) -> (r: VmLayout)
        ensures
            layout_of(self.config_of().firecracker.data_dir@, id@, r),
    {
        let vm_dir = path_join(self.config.agents_dir().as_str(), id);
        let socket_path = path_join(vm_dir.as_str(), API_SOCKET_FILE);
        VmLayout { id: String::from_str(id), vm_dir, socket_path }
    }

    /// The API calls that boot a fresh VM from the configured kernel and
    /// root file system.
    pub fn boot_calls(&self) -> (r: Vec<ApiCall>)
        ensures
            calls_view(r@) == boot_calls(self.config_of()),
    {
        let guest = &self.config.guest;
        let machine = MachineConfig {
            vcpu_count: guest.vcpu_count,
            mem_size_mib: guest.mem_size_mib,
            smt: false,
            track_dirty_pages: false,
        };
        let boot = BootSource {
            kernel_image_path: guest.kernel_path.clone(),
            boot_args: String::from_str(BOOT_ARGS),
        };
        let drive = Drive {
            drive_id: String::from_str("rootfs"),
            path_on_host: guest.rootfs_path.clone(),
            is_root_device: true,
            is_read_only: false,
        };
        let mut calls: Vec<ApiCall> = Vec::new();
        calls.push(api_call(ApiMethod::Put, "/machine-config", machine.to_json()));
        calls.push(api_call(ApiMethod::Put, "/boot-source", boot.to_json()));
        calls.push(api_call(ApiMethod::Put, "/drives", drive.to_json()));
        calls.push(
            api_call(
                ApiMethod::Put,
                "/actions",
                JsonValue::object1("action_type", JsonValue::string("InstanceStart")),
            ),
        );
        assert(calls_view(calls@) =~= boot_calls(self.config_of()));
        calls
    }

    /// The API calls that restore a VM from the snapshot files given.
    pub fn restore_calls(&self, snapshot_path: &str, mem_path: &str) -> (r: Vec<ApiCall>)
        ensures
            calls_view(r@) == restore_calls(snapshot_path@, mem_path@),
    {
        let mut load: Vec<(String, JsonValue)> = Vec::new();
        load.push(member("snapshot_path", JsonValue::string(snapshot_path)));
        load.push(member("mem_file_path", JsonValue::string(mem_path)));
        load.push(member("enable_diff_snapshots", JsonValue::Bool(true)));
        let load_body = fields_json(load);
        let mut calls: Vec<ApiCall> = Vec::new();
        calls.push(api_call(ApiMethod::Put, "/snapshot/load", load_body));
        calls.push(
            api_call(
                ApiMethod::Put,
                "/actions",
                JsonValue::object1("action_type", JsonValue::string("Resume")),
            ),
        );
        assert(calls@[0].body@->Object_0 =~= restore_calls(snapshot_path@, mem_path@)[0].2->Object_0);
        assert(calls_view(calls@) =~= restore_calls(snapshot_path@, mem_path@));
        calls
    }

    /// The API calls that snapshot a running VM into `snapshot_dir`.
    pub fn snapshot_calls(&self, snapshot_dir: &str) -> (r: Vec<ApiCall>)
        ensures
            calls_view(r@) == snapshot_calls(
                join(snapshot_dir@, crate::snapshot::VM_STATE_FILE@),
                join(snapshot_dir@, crate::snapshot::MEM_FILE@),
            ),
    {
        let vm_state = path_join(snapshot_dir, crate::snapshot::VM_STATE_FILE);
        let mem = path_join(snapshot_dir, crate::snapshot::MEM_FILE);
        let mut create: Vec<(String, JsonValue)> = Vec::new();
        create.push(member("snapshot_type", JsonValue::string("Full")));
        create.push(member("snapshot_path", JsonValue::Str(vm_state)));
        create.push(member("mem_file_path", JsonValue::Str(mem)));
        let create_body = fields_json(create);
        let mut calls: Vec<ApiCall> = Vec::new();
        calls.push(
            api_call(
                ApiMethod::Patch,
                "/vm",
                JsonValue::object1("state", JsonValue::string("Paused")),
            ),
        );
        calls.push(api_call(ApiMethod::Put, "/snapshot/create", create_body));
        assert(calls@[1].body@->Object_0 =~= snapshot_calls(
            join(snapshot_dir@, crate::snapshot::VM_STATE_FILE@),
            join(snapshot_dir@, crate::snapshot::MEM_FILE@),
        )[1].2->Object_0);
        assert(calls_view(calls@) =~= snapshot_calls(
            join(snapshot_dir@, crate::snapshot::VM_STATE_FILE@),
            join(snapshot_dir@, crate::snapshot::MEM_FILE@),
        ));
        calls
    }
}

/// One thing the host does to bring up or drive a VM.
#[derive(Debug)]
pub enum VmStep {
    /// Create the directory and its parents.
    CreateDir { path: String },
    /// Remove the file if it is there (a stale API socket).
    RemoveIfPresent { path: String },
    /// Start Firecracker with its API on the socket.
    Spawn { binary: String, socket_path: String },
    /// Look for the socket up to `attempts` times, `interval_ms` apart; give
    /// up with `socket_not_ready` when it never appears.
    AwaitSocket { path: String, attempts: u32, interval_ms: u64 },
    /// Send an API call on the socket; stop on a rejected answer.
    Send { socket_path: String, call: ApiCall },
    /// Let the guest run for `secs` seconds.
    Settle { secs: u64 },
}

/// The mathematical content of a `VmStep`.
pub enum Step {
    CreateDir { path: Seq<char> },
    RemoveIfPresent { path: Seq<char> },
    Spawn { binary: Seq<char>, socket_path: Seq<char> },
    AwaitSocket { path: Seq<char>, attempts: u32, interval_ms: u64 },
    Send { socket_path: Seq<char>, call: (ApiMethod, Seq<char>, Json) },
    Settle { secs: u64 },
}

impl View for VmStep {
    type V = Step;

    open spec fn view(&self) -> Step {
        match self {
            VmStep::CreateDir { path } => Step::CreateDir { path: path@ },
            VmStep::RemoveIfPresent { path } => Step::RemoveIfPresent { path: path@ },
            VmStep::Spawn { binary, socket_path } => Step::Spawn {
                binary: binary@,
                socket_path: socket_path@,
            },
            VmStep::AwaitSocket { path, attempts, interval_ms } => Step::AwaitSocket {
                path: path@,
                attempts: *attempts,
                interval_ms: *interval_ms,
            },
            VmStep::Send { socket_path, call } => Step::Send {
                socket_path: socket_path@,
                call: call@,
            },
            VmStep::Settle { secs } => Step::Settle { secs: *secs },
        }
    }
}

pub open spec fn steps_view(steps: Seq<VmStep>) -> Seq<Step> {
    steps.map_values(|s: VmStep| s@)
}

/// Sending `calls` in order on `socket`.
pub open spec fn send_steps(socket: Seq<char>, calls: Seq<(ApiMethod, Seq<char>, Json)>) -> Seq<
    Step,
> {
    calls.map_values(|c: (ApiMethod, Seq<char>, Json)| Step::Send { socket_path: socket, call: c })
}

/// Bringing up a VM: its directory, no stale socket, the process, its
/// socket, then `calls` in order.
pub open spec fn launch_steps(
    binary: Seq<char>,
    vm_dir: Seq<char>,
    socket: Seq<char>,
    calls: Seq<(ApiMethod, Seq<char>, Json)>,
) -> Seq<Step> {
    seq![
        Step::CreateDir { path: vm_dir },
        Step::RemoveIfPresent { path: socket },
        Step::Spawn { binary, socket_path: socket },
        Step::AwaitSocket {
            path: socket,
            attempts: SOCKET_WAIT_ATTEMPTS,
            interval_ms: SOCKET_WAIT_INTERVAL_MS,
        },
    ] + send_steps(socket, calls)
}

impl ApiCall {
    /// A copy of the call.
    pub fn duplicate(&self) -> (r: ApiCall)
        ensures
            r@ == self@,
    {
        ApiCall { method: self.method, path: self.path.clone(), body: self.body.deep_clone() }
    }
}

/// Appends a `Send` step on `socket_path` for each call, in order.
pub fn push_sends(steps: &mut Vec<VmStep>, socket_path: &str, calls: &Vec<ApiCall>)
    ensures
        steps_view(final(steps)@) == steps_view(old(steps)@) + send_steps(
            socket_path@,
            calls_view(calls@),
        ),
{
    let ghost start = steps_view(steps@);
    let ghost cv = calls_view(calls@);
    let mut i: usize = 0;
    while i < calls.len()
        invariant
            i <= calls@.len(),
            cv == calls_view(calls@),
            steps_view(steps@) == start + send_steps(socket_path@, cv.take(i as int)),
        decreases calls@.len() - i,
    {
        let ghost before = steps@;
        steps.push(VmStep::Send { socket_path: String::from_str(socket_path), call: calls[i].duplicate() });
        proof {
            assert(cv.take(i + 1) =~= cv.take(i as int).push(cv[i as int]));
            assert(send_steps(socket_path@, cv.take(i + 1)) =~= send_steps(socket_path@, cv.take(i as int)).push(
                Step::Send { socket_path: socket_path@, call: cv[i as int] },
            ));
            assert(steps_view(steps@) =~= steps_view(before).push(
                Step::Send { socket_path: socket_path@, call: cv[i as int] },
            ));
        }
        i = i + 1;
    }
    assert(cv.take(calls@.len() as int) =~= cv);
}

impl VmBuilder {
    /// The steps that bring up the VM at `layout` and send it `calls`.
    pub fn launch_steps(&self, layout: &VmLayout, calls: &Vec<ApiCall>) -> (r: Vec<VmStep>)
        ensures
            steps_view(r@) == launch_steps(
                self.config_of().firecracker.binary@,
                layout.vm_dir@,
                layout.socket_path@,
                calls_view(calls@),
            ),
    {
        let mut steps: Vec<VmStep> = Vec::new();
        steps.push(VmStep::CreateDir { path: layout.vm_dir.clone() });
        steps.push(VmStep::RemoveIfPresent { path: layout.socket_path.clone() });
        steps.push(
            VmStep::Spawn {
                binary: self.config.firecracker.binary.clone(),
                socket_path: layout.socket_path.clone(),
            },
        );
        steps.push(
            VmStep::AwaitSocket {
                path: layout.socket_path.clone(),
                attempts: SOCKET_WAIT_ATTEMPTS,
                interval_ms: SOCKET_WAIT_INTERVAL_MS,
            },
        );
        let ghost head = steps_view(steps@);
        assert(head =~= seq![
            Step::CreateDir { path: layout.vm_dir@ },
            Step::RemoveIfPresent { path: layout.socket_path@ },
            Step::Spawn { binary: self.config_of().firecracker.binary@, socket_path: layout.socket_path@ },
            Step::AwaitSocket {
                path: layout.socket_path@,
                attempts: SOCKET_WAIT_ATTEMPTS,
                interval_ms: SOCKET_WAIT_INTERVAL_MS,
            },
        ]);
        push_sends(&mut steps, layout.socket_path.as_str(), calls);
        steps
    }
}

/// The canonical reason phrase of HTTP status `code`, as
/// `http::StatusCode::canonical_reason` gives it; `None` for a code it has
/// none for.
pub uninterp spec fn canonical_reason(code: u16) -> Option<Seq<char>>;

/// Calls `hyper::StatusCode::from_u16(code)` (which accepts 100 to 999) and
/// then `canonical_reason` on it; the phrase depends on the code alone.
#[verifier::external_body]
fn reason_phrase(code: u16) -> (r: Option<&'static str>)
    requires
        100 <= code <= 999,
    ensures
        match r {
            Some(p) => canonical_reason(code) == Some(p@),
            None => canonical_reason(code) is None,
        },
{
    match hyper::StatusCode::from_u16(code) {
        Ok(status) => status.canonical_reason(),
        Err(_) => None,
    }
}

/// `StatusCode`'s display form of an HTTP status code: the code, a space and
/// its canonical reason phrase, or `<unknown status code>` without one.
pub open spec fn status_line(code: u16) -> Seq<char> {
    decimal(code as nat) + " "@ + match canonical_reason(code) {
        Some(phrase) => phrase,
        None => "<unknown status code>"@,
    }
}

/// The status `code` as `StatusCode` displays it.
fn status_text(code: u16) -> (r: String)
    requires
        100 <= code <= 999,
    ensures
        r@ == status_line(code),
{
    let mut s = decimal_string(code as u64);
    s.append(" ");
    match reason_phrase(code) {
        Some(phrase) => s.append(phrase),
        None => s.append("<unknown status code>"),
    }
    s
}

/// An answer of the API is accepted when its status is 2xx.
pub open spec fn accepted(code: u16) -> bool {
    200 <= code <= 299
}

/// What a rejected call reports: the path, the status as displayed, and the
/// body of the answer.
pub open spec fn rejection_text(path: Seq<char>, status: Seq<char>, body: Seq<char>) -> Seq<char> {
    path + " -> "@ + status + ": "@ + body
}

/// Judges an API answer, given the status as displayed: `Ok` for a 2xx
/// status, else a Firecracker error naming path, status and body.
pub fn judge_answer(path: &str, code: u16, status: &str, body: &str) -> (r: Result<(), QuickOsError>)
    ensures
        accepted(code) ==> r is Ok,
        !accepted(code) ==> (r matches Err(e) && e@ == (ErrorKind::Firecracker, rejection_text(
            path@,
            status@,
            body@,
        ))),
{
    if 200 <= code && code <= 299 {
        Ok(())
    } else {
        let mut m = concat4(path, " -> ", status, ": ");
        m.append(body);
        Err(QuickOsError::Firecracker(m))
    }
}

/// Judges the answer to an API call on `path`: status `code` with `body`.
pub fn check_answer(path: &str, code: u16, body: &str) -> (r: Result<(), QuickOsError>)
    requires
        100 <= code <= 999,
    ensures
        accepted(code) ==> r is Ok,
        !accepted(code) ==> (r matches Err(e) && e@ == (ErrorKind::Firecracker, rejection_text(
            path@,
            status_line(code),
            body@,
        ))),
{
    let status = status_text(code);
    judge_answer(path, code, status.as_str(), body)
}

/// The error for an API socket that did not appear in time.
pub fn socket_not_ready(path: &str) -> (r: QuickOsError)
    ensures
        r@ == (ErrorKind::Firecracker, "socket not ready: "@ + path@),
{
    QuickOsError::Firecracker(concat2("socket not ready: ", path))
}

/// The error for a Firecracker process that could not be started.
pub fn spawn_failed(binary: &str, cause: &str) -> (r: QuickOsError)
    ensures
        r@ == (ErrorKind::Firecracker, "spawn "@ + binary@ + ": "@ + cause@),
{
    QuickOsError::Firecracker(concat4("spawn ", binary, ": ", cause))
}

/// Law: a fresh VM is configured and started by four `PUT` calls in order:
/// `/machine-config` with the configured vCPU count and memory (no SMT, no
/// dirty-page tracking), `/boot-source` with the configured guest kernel
/// and the fixed command line, `/drives` with the configured root file
/// system as the writable root device `rootfs`, and `/actions` with
/// `InstanceStart`.
pub proof fn lemma_boot_calls_use_configuration(config: AppConfig)
    ensures
        boot_calls(config).len() == 4,
        boot_calls(config)[0].0 == ApiMethod::Put,
        boot_calls(config)[0].1 == "/machine-config"@,
        boot_calls(config)[0].2.get("vcpu_count"@) == Some(
            Json::Number(decimal(config.guest.vcpu_count as nat)),
        ),
        boot_calls(config)[0].2.get("mem_size_mib"@) == Some(
            Json::Number(decimal(config.guest.mem_size_mib as nat)),
        ),
        boot_calls(config)[0].2.get("smt"@) == Some(Json::Bool(false)),
        boot_calls(config)[0].2.get("track_dirty_pages"@) == Some(Json::Bool(false)),
        boot_calls(config)[1].0 == ApiMethod::Put,
        boot_calls(config)[1].1 == "/boot-source"@,
        boot_calls(config)[1].2.get("kernel_image_path"@) == Some(
            Json::Str(config.guest.kernel_path@),
        ),
        boot_calls(config)[1].2.get("boot_args"@) == Some(
            Json::Str("console=ttyS0 reboot=k panic=1 pci=off"@),
        ),
        boot_calls(config)[2].0 == ApiMethod::Put,
        boot_calls(config)[2].1 == "/drives"@,
        boot_calls(config)[2].2.get("drive_id"@) == Some(Json::Str("rootfs"@)),
        boot_calls(config)[2].2.get("path_on_host"@) == Some(Json::Str(config.guest.rootfs_path@)),
        boot_calls(config)[2].2.get("is_root_device"@) == Some(Json::Bool(true)),
        boot_calls(config)[2].2.get("is_read_only"@) == Some(Json::Bool(false)),
        boot_calls(config)[3] == (
            ApiMethod::Put,
            "/actions"@,
            Json::Object(seq![("action_type"@, Json::Str("InstanceStart"@))]),
        ),
{
    reveal_strlit("vcpu_count");
    reveal_strlit("mem_size_mib");
    reveal_strlit("smt");
    reveal_strlit("track_dirty_pages");
    reveal_strlit("kernel_image_path");
    reveal_strlit("boot_args");
    reveal_strlit("drive_id");
    reveal_strlit("path_on_host");
    reveal_strlit("is_root_device");
    reveal_strlit("is_read_only");
    let m = boot_calls(config)[0].2->Object_0;
    assert(m[0].0[0] != "mem_size_mib"@[0]);
    assert(m[0].0[0] != "smt"@[0] && m[1].0[0] != "smt"@[0]);
    assert(m[0].0[0] != "track_dirty_pages"@[0] && m[1].0[0] != "track_dirty_pages"@[0]
        && m[2].0[0] != "track_dirty_pages"@[0]);
    lemma_get_first(m, "vcpu_count"@, 0);
    lemma_get_first(m, "mem_size_mib"@, 1);
    lemma_get_first(m, "smt"@, 2);
    lemma_get_first(m, "track_dirty_pages"@, 3);
    let b = boot_calls(config)[1].2->Object_0;
    assert(b[0].0[0] != "boot_args"@[0]);
    lemma_get_first(b, "kernel_image_path"@, 0);
    lemma_get_first(b, "boot_args"@, 1);
    let d = boot_calls(config)[2].2->Object_0;
    assert(d[0].0[0] != "path_on_host"@[0]);
    assert(d[0].0[0] != "is_root_device"@[0] && d[1].0[0] != "is_root_device"@[0]);
    assert(d[0].0[0] != "is_read_only"@[0] && d[1].0[0] != "is_read_only"@[0]
        && d[2].0[4] != "is_read_only"@[4]);
    lemma_get_first(d, "drive_id"@, 0);
    lemma_get_first(d, "path_on_host"@, 1);
    lemma_get_first(d, "is_root_device"@, 2);
    lemma_get_first(d, "is_read_only"@, 3);
}

/// Law: a VM is restored by two `PUT` calls: `/snapshot/load` with the
/// snapshot's state file and memory file, and then `/actions` with
/// `Resume`, so the restored VM runs on.
pub proof fn lemma_restore_loads_then_resumes(snapshot_path: Seq<char>, mem_path: Seq<char>)
    ensures
        restore_calls(snapshot_path, mem_path).len() == 2,
        restore_calls(snapshot_path, mem_path)[0].0 == ApiMethod::Put,
        restore_calls(snapshot_path, mem_path)[0].1 == "/snapshot/load"@,
        restore_calls(snapshot_path, mem_path)[0].2.get("snapshot_path"@) == Some(
            Json::Str(snapshot_path),
        ),
        restore_calls(snapshot_path, mem_path)[0].2.get("mem_file_path"@) == Some(
            Json::Str(mem_path),
        ),
        restore_calls(snapshot_path, mem_path)[1] == (
            ApiMethod::Put,
            "/actions"@,
            Json::Object(seq![("action_type"@, Json::Str("Resume"@))]),
        ),
{
    reveal_strlit("snapshot_path");
    reveal_strlit("mem_file_path");
    let f = restore_calls(snapshot_path, mem_path)[0].2->Object_0;
    assert(f[0].0[0] != "mem_file_path"@[0]);
    lemma_get_first(f, "snapshot_path"@, 0);
    lemma_get_first(f, "mem_file_path"@, 1);
}

/// Law: a VM is snapshotted by pausing it (`PATCH /vm` to `Paused`) and then
/// writing a full snapshot (`PUT /snapshot/create`) of its state and memory
/// to the two given files.
pub proof fn lemma_snapshot_pauses_then_writes(vm_state_path: Seq<char>, mem_path: Seq<char>)
    ensures
        snapshot_calls(vm_state_path, mem_path).len() == 2,
        snapshot_calls(vm_state_path, mem_path)[0] == (
            ApiMethod::Patch,
            "/vm"@,
            Json::Object(seq![("state"@, Json::Str("Paused"@))]),
        ),
        snapshot_calls(vm_state_path, mem_path)[1].0 == ApiMethod::Put,
        snapshot_calls(vm_state_path, mem_path)[1].1 == "/snapshot/create"@,
        snapshot_calls(vm_state_path, mem_path)[1].2.get("snapshot_type"@) == Some(
            Json::Str("Full"@),
        ),
        snapshot_calls(vm_state_path, mem_path)[1].2.get("snapshot_path"@) == Some(
            Json::Str(vm_state_path),
        ),
        snapshot_calls(vm_state_path, mem_path)[1].2.get("mem_file_path"@) == Some(
            Json::Str(mem_path),
        ),
{
    reveal_strlit("snapshot_type");
    reveal_strlit("snapshot_path");
    reveal_strlit("mem_file_path");
    let f = snapshot_calls(vm_state_path, mem_path)[1].2->Object_0;
    assert(f[0].0[9] != "snapshot_path"@[9]);
    assert(f[0].0[0] != "mem_file_path"@[0] && f[1].0[0] != "mem_file_path"@[0]);
    lemma_get_first(f, "snapshot_type"@, 0);
    lemma_get_first(f, "snapshot_path"@, 1);
    lemma_get_first(f, "mem_file_path"@, 2);
}

/// Law: bringing up a VM makes its directory, removes a stale socket,
/// starts the binary on the socket, waits for the socket, and then sends the
/// calls in order, each on that socket; nothing follows the last call.
pub proof fn lemma_launch_order(
    binary: Seq<char>,
    vm_dir: Seq<char>,
    socket: Seq<char>,
    calls: Seq<(ApiMethod, Seq<char>, Json)>,
)
    ensures
        launch_steps(binary, vm_dir, socket, calls).len() == 4 + calls.len(),
        launch_steps(binary, vm_dir, socket, calls)[0] == (Step::CreateDir { path: vm_dir }),
        launch_steps(binary, vm_dir, socket, calls)[1] == (Step::RemoveIfPresent { path: socket }),
        launch_steps(binary, vm_dir, socket, calls)[2] == (Step::Spawn {
            binary,
            socket_path: socket,
        }),
        (launch_steps(binary, vm_dir, socket, calls)[3] matches Step::AwaitSocket { path, .. }
            && path == socket),
        forall|i: int|
            0 <= i < calls.len() ==> launch_steps(binary, vm_dir, socket, calls)[4 + i] == (
            Step::Send { socket_path: socket, call: #[trigger] calls[i] }),
{
}

/// Law: VM `id` lives in `<data_dir>/agents/<id>`, with its API socket at
/// `firecracker.sock` in that directory.
pub proof fn lemma_layout_places(data_dir: Seq<char>, id: Seq<char>, layout: VmLayout)
    requires
        layout_of(data_dir, id, layout),
    ensures
        layout.id@ == id,
        layout.vm_dir@ == join(join(data_dir, "agents"@), id),
        layout.socket_path@ == join(layout.vm_dir@, "firecracker.sock"@),
{
}

/// Law: an API answer is accepted exactly when its status is a success
/// (from 200 to 299); every other status, 1xx, 3xx, 4xx and 5xx included,
/// is a rejection.
pub proof fn lemma_accepted_is_success(code: u16)
    ensures
        accepted(code) <==> (200 <= code && code < 300),
{
}

} // verus!
