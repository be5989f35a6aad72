//! The host's tool surface: the catalogue of tools, what a call of each
//! asks of the dispatcher, and the events each call leaves in the log.
use vstd::prelude::*;
use vstd::string::*;

use crate::agent::{new_v4_bits, record_json, uuid_text, AgentRecord, V4_BITS, V4_MASK};
use crate::error::{ErrorKind, QuickOsError};
use crate::json::{lemma_get_first, Json, JsonValue};
use crate::observe::{log_push, EventLog, Observation, ToolEvent};
use crate::snapshot::SnapshotRef;
use crate::text::{concat2, str_eq};

verus! {

/// A tool of the surface: its name, what it does and the JSON schema of its
/// input.
#[derive(Debug)]
pub struct ToolDescriptor {
    pub name: String,
    pub description: String,
    pub input_schema: JsonValue,
}

impl View for ToolDescriptor {
    type V = (Seq<char>, Seq<char>, Json);

    open spec fn view(&self) -> (Seq<char>, Seq<char>, Json) {
        (self.name@, self.description@, self.input_schema@)
    }
}

/// The body of a tool call.
#[derive(Debug)]
pub struct ToolInvokeRequest {
    pub input: JsonValue,
}

/// The answer to a tool call: the call's identifier and the tool's output.
#[derive(Debug)]
pub struct ToolInvokeResponse {
    pub id: u128,
    pub output: JsonValue,
}

pub open spec fn object_schema(properties: Json) -> Json {
    Json::Object(seq![("type"@, Json::Str("object"@)), ("properties"@, properties)])
}

pub open spec fn snapshot_id_properties() -> Json {
    Json::Object(seq![("snapshot_id"@, Json::Object(seq![("type"@, Json::Str("string"@))]))])
}

/// The three tools, in the order they are listed.
pub open spec fn catalogue() -> Seq<(Seq<char>, Seq<char>, Json)> {
    seq![
        ("agents.list"@, "List running agent microVMs"@, object_schema(Json::Object(seq![]))),
        ("agents.spawn"@, "Fork/restore an agent VM from a snapshot"@, object_schema(
            snapshot_id_properties(),
        )),
        ("snapshots.create"@, "Boot a fresh VM and capture a full snapshot"@, Json::Object(
            seq![
                ("type"@, Json::Str("object"@)),
                ("properties"@, snapshot_id_properties()),
                ("required"@, Json::Array(seq![Json::Str("snapshot_id"@)])),
            ],
        )),
    ]
}

fn type_member(t: &str) -> (r: JsonValue)
    ensures
        r@ == Json::Object(seq![("type"@, Json::Str(t@))]),
{
    JsonValue::object1("type", JsonValue::string(t))
}

fn snapshot_id_property() -> (r: JsonValue)
    ensures
        r@ == snapshot_id_properties(),
{
    JsonValue::object1("snapshot_id", type_member("string"))
}

fn descriptor(name: &str, description: &str, input_schema: JsonValue) -> (r: ToolDescriptor)
    ensures
        r@ == (name@, description@, input_schema@),
{
    ToolDescriptor {
        name: String::from_str(name),
        description: String::from_str(description),
        input_schema,
    }
}

/// The tools the surface offers.
fn catalogue_descriptors() -> (r: Vec<ToolDescriptor>)
    ensures
        r@.map_values(|d: ToolDescriptor| d@) == catalogue(),
{
    let mut tools: Vec<ToolDescriptor> = Vec::new();
    let empty: Vec<(String, JsonValue)> = Vec::new();
    let no_properties = JsonValue::Object(empty);
    assert(no_properties@->Object_0 =~= Seq::<(Seq<char>, Json)>::empty());
    tools.push(
        descriptor(
            "agents.list",
            "List running agent microVMs",
            JsonValue::object2("type", JsonValue::string("object"), "properties", no_properties),
        ),
    );
    tools.push(
        descriptor(
            "agents.spawn",
            "Fork/restore an agent VM from a snapshot",
            JsonValue::object2(
                "type",
                JsonValue::string("object"),
                "properties",
                snapshot_id_property(),
            ),
        ),
    );
    let mut required: Vec<JsonValue> = Vec::new();
    required.push(JsonValue::string("snapshot_id"));
    let required = JsonValue::array(required);
    let mut create: Vec<(String, JsonValue)> = Vec::new();
    create.push((String::from_str("type"), JsonValue::string("object")));
    create.push((String::from_str("properties"), snapshot_id_property()));
    create.push((String::from_str("required"), required));
    let ghost cf = create@;
    let create_schema = JsonValue::Object(create);
    assert(create_schema@ == catalogue()[2].2) by {
        assert(required@->Array_0 =~= seq![Json::Str("snapshot_id"@)]);
        assert forall|k: int| 0 <= k < 3 implies create_schema@->Object_0[k] == (
            cf[k].0@,
            cf[k].1@,
        ) by {
            assert(create_schema@->Object_0[k] == (cf[k].0@, cf[k].1.view_of()));
        }
        assert(create_schema@->Object_0 =~= catalogue()[2].2->Object_0);
    }
    tools.push(
        descriptor(
            "snapshots.create",
            "Boot a fresh VM and capture a full snapshot",
            create_schema,
        ),
    );
    assert(tools@.map_values(|d: ToolDescriptor| d@) =~= catalogue());
    tools
}

/// What a tool call asks of the dispatcher.
#[derive(Debug)]
pub enum Invocation {
    ListAgents,
    SpawnAgent { snapshot_id: Option<String> },
    CreateSnapshot { snapshot_id: String },
}

/// The mathematical content of an `Invocation`.
pub enum Request {
    ListAgents,
    SpawnAgent { snapshot_id: Option<Seq<char>> },
    CreateSnapshot { snapshot_id: Seq<char> },
}

impl View for Invocation {
    type V = Request;

    open spec fn view(&self) -> Request {
        match self {
            Invocation::ListAgents => Request::ListAgents,
            Invocation::SpawnAgent { snapshot_id } => Request::SpawnAgent {
                snapshot_id: match snapshot_id {
                    Some(s) => Some(s@),
                    None => None,
                },
            },
            Invocation::CreateSnapshot { snapshot_id } => Request::CreateSnapshot {
                snapshot_id: snapshot_id@,
            },
        }
    }
}

/// What calling tool `name` with `input` asks for, or the tool error it
/// gives: `snapshot_id` is read from the input when it is a string.
pub open spec fn request_of(name: Seq<char>, input: Json) -> Result<Request, (ErrorKind, Seq<char>)> {
    if name == "agents.list"@ {
        Ok(Request::ListAgents)
    } else if name == "agents.spawn"@ {
        Ok(Request::SpawnAgent { snapshot_id: input.str_member("snapshot_id"@) })
    } else if name == "snapshots.create"@ {
        match input.str_member("snapshot_id"@) {
            Some(id) => Ok(Request::CreateSnapshot { snapshot_id: id }),
            None => Err((ErrorKind::Tool, "missing snapshot_id"@)),
        }
    } else {
        Err((ErrorKind::Tool, "unknown tool: "@ + name))
    }
}

fn snapshot_id_of(input: &JsonValue) -> (r: Option<&str>)
    ensures
        r matches Some(s) ==> input@.str_member("snapshot_id"@) == Some(s@),
        r is None ==> input@.str_member("snapshot_id"@) is None,
{
    match input.get("snapshot_id") {
        Some(v) => v.as_str(),
        None => None,
    }
}

/// Decides what calling tool `name` with `input` asks for.
pub fn plan_invocation(name: &str, input: &JsonValue) -> (r: Result<Invocation, QuickOsError>)
    ensures
        request_of(name@, input@) matches Ok(req) ==> (r matches Ok(inv) && inv@ == req),
        request_of(name@, input@) matches Err(err) ==> (r matches Err(e) && e@ == err),
{
    if str_eq(name, "agents.list") {
        Ok(Invocation::ListAgents)
    } else if str_eq(name, "agents.spawn") {
        let snapshot_id = match snapshot_id_of(input) {
            Some(s) => Some(String::from_str(s)),
            None => None,
        };
        Ok(Invocation::SpawnAgent { snapshot_id })
    } else if str_eq(name, "snapshots.create") {
        match snapshot_id_of(input) {
            Some(s) => Ok(Invocation::CreateSnapshot { snapshot_id: String::from_str(s) }),
            None => Err(QuickOsError::tool("missing snapshot_id")),
        }
    } else {
        Err(QuickOsError::Tool(concat2("unknown tool: ", name)))
    }
}

/// A fresh identifier for a tool call (a random version-4 UUID).
pub fn new_invocation_id() -> (r: u128)
    ensures
        r & V4_MASK == V4_BITS,
{
    new_v4_bits()
}


/// What the dispatcher gave back for a call.
#[derive(Debug)]
pub enum InvocationOutcome {
    Agents(Vec<AgentRecord>),
    Spawned(AgentRecord),
    Snapshot(SnapshotRef),
}

/// JSON form of a snapshot: its name and the paths of its two files.
pub open spec fn snapshot_json(s: SnapshotRef) -> Json {
    Json::Object(
        seq![
            ("id"@, Json::Str(s.id@)),
            ("vm_state_path"@, Json::Str(s.vm_state_path@)),
            ("mem_path"@, Json::Str(s.mem_path@)),
        ],
    )
}

/// The output a call reports for what the dispatcher gave back.
pub open spec fn outcome_json(outcome: InvocationOutcome) -> Json {
    match outcome {
        InvocationOutcome::Agents(records) => Json::Object(
            seq![("agents"@, Json::Array(records@.map_values(|r: AgentRecord| record_json(r))))],
        ),
        InvocationOutcome::Spawned(record) => Json::Object(
            seq![("agent"@, record_json(record))],
        ),
        InvocationOutcome::Snapshot(s) => Json::Object(seq![("snapshot"@, snapshot_json(s))]),
    }
}

fn snapshot_to_json(s: &SnapshotRef) -> (r: JsonValue)
    ensures
        r@ == snapshot_json(*s),
{
    let mut v: Vec<(String, JsonValue)> = Vec::new();
    v.push((String::from_str("id"), JsonValue::Str(s.id.clone())));
    v.push((String::from_str("vm_state_path"), JsonValue::Str(s.vm_state_path.clone())));
    v.push((String::from_str("mem_path"), JsonValue::Str(s.mem_path.clone())));
    let ghost f = v@;
    let r = JsonValue::Object(v);
    assert(r@->Object_0 =~= snapshot_json(*s)->Object_0) by {
        assert forall|k: int| 0 <= k < 3 implies r@->Object_0[k] == (f[k].0@, f[k].1@) by {
            assert(r@->Object_0[k] == (f[k].0@, f[k].1.view_of()));
        }
    }
    r
}

fn records_to_json(records: &Vec<AgentRecord>) -> (r: JsonValue)
    ensures
        r@ == Json::Array(records@.map_values(|x: AgentRecord| record_json(x))),
{
    let mut items: Vec<JsonValue> = Vec::new();
    let mut i: usize = 0;
    while i < records.len()
        invariant
            i <= records@.len(),
            items@.len() == i,
            forall|j: int| 0 <= j < i ==> #[trigger] items@[j]@ == record_json(records@[j]),
        decreases records@.len() - i,
    {
        items.push(records[i].to_json());
        i = i + 1;
    }
    let r = JsonValue::array(items);
    assert(r@->Array_0 =~= records@.map_values(|x: AgentRecord| record_json(x)));
    r
}

/// The output a call reports for what the dispatcher gave back.
pub fn outcome_to_json(outcome: &InvocationOutcome) -> (r: JsonValue)
    ensures
        r@ == outcome_json(*outcome),
{
    match outcome {
        InvocationOutcome::Agents(records) => JsonValue::object1("agents", records_to_json(records)),
        InvocationOutcome::Spawned(record) => JsonValue::object1("agent", record.to_json()),
        InvocationOutcome::Snapshot(s) => JsonValue::object1("snapshot", snapshot_to_json(s)),
    }
}

/// The log after a call completes with `outcome`: a spawned agent is logged
/// first, then the completion with the call's output.
pub open spec fn completion_log(
    log: Seq<Observation>,
    capacity: nat,
    id: u128,
    name: Seq<char>,
    outcome: InvocationOutcome,
) -> Seq<Observation> {
    let done = Observation::ToolCompleted { id, tool: name, output: outcome_json(outcome) };
    match outcome {
        InvocationOutcome::Spawned(record) => log_push(
            log_push(log, capacity, Observation::AgentSpawned { agent: record }),
            capacity,
            done,
        ),
        _ => log_push(log, capacity, done),
    }
}

impl ToolInvokeResponse {
    /// JSON form of the answer: the call's identifier as hyphenated text and
    /// the output.
    pub fn to_json(&self) -> (r: JsonValue)
        ensures
            r@ == Json::Object(seq![("id"@, Json::Str(uuid_text(self.id))), ("output"@, self.output@)]),
    {
        JsonValue::object2(
            "id",
            JsonValue::Str(crate::agent::AgentId(self.id).text()),
            "output",
            self.output.deep_clone(),
        )
    }
}

/// The tool surface's own state: the log its calls leave events in.
pub struct ToolRegistry {
    events: EventLog,
}

impl ToolRegistry {
    /// The events logged so far.
    pub closed spec fn log(&self) -> EventLog {
        self.events
    }

    pub fn new(events: EventLog) -> (r: ToolRegistry)
        ensures
            r.log() == events,
    {
        ToolRegistry { events }
    }

    /// The log of the surface's events.
    pub fn events(&self) -> (r: &EventLog)
        ensures
            *r == self.log(),
    {
        &self.events
    }

    /// The tools the surface offers.
    pub fn list_tools(&self) -> (r: Vec<ToolDescriptor>)
        ensures
            r@.map_values(|d: ToolDescriptor| d@) == catalogue(),
    {
        catalogue_descriptors()
    }

    /// Logs that tool `name` was called with `input` under call identifier
    /// `id`, then decides what the call asks for.
    pub fn begin_invocation(&mut self, id: u128, name: &str, input: &JsonValue) -> (r: Result<
        Invocation,
        QuickOsError,
    >)
        ensures
            final(self).log().capacity_of() == old(self).log().capacity_of(),
            final(self).log().entries() == log_push(
                old(self).log().entries(),
                old(self).log().capacity_of(),
                Observation::ToolInvoked { id, tool: name@, input: input@ },
            ),
            request_of(name@, input@) matches Ok(req) ==> (r matches Ok(inv) && inv@ == req),
            request_of(name@, input@) matches Err(err) ==> (r matches Err(e) && e@ == err),
    {
        self.events.push(
            ToolEvent::ToolInvoked { id, tool: String::from_str(name), input: input.deep_clone() },
        );
        plan_invocation(name, input)
    }

    /// Logs the completion of call `id` of tool `name` and builds its
    /// answer. A failed call is not completed: it leaves only its invocation
    /// in the log.
    pub fn complete_invocation(&mut self, id: u128, name: &str, outcome: InvocationOutcome) -> (r:
        ToolInvokeResponse)
        ensures
            final(self).log().capacity_of() == old(self).log().capacity_of(),
            final(self).log().entries() == completion_log(
                old(self).log().entries(),
                old(self).log().capacity_of(),
                id,
                name@,
                outcome,
            ),
            r.id == id,
            r.output@ == outcome_json(outcome),
    {
        let output = outcome_to_json(&outcome);
        match outcome {
            InvocationOutcome::Spawned(record) => {
                self.events.push(ToolEvent::AgentSpawned { agent: record });
            },
            _ => {},
        }
        self.events.push(
            ToolEvent::ToolCompleted {
                id,
                tool: String::from_str(name),
                output: output.deep_clone(),
            },
        );
        ToolInvokeResponse { id, output }
    }
}

/// Law: the surface offers `agents.list`, `agents.spawn` and
/// `snapshots.create`, the last with `snapshot_id` as its one required
/// input member; a call reads `snapshot_id` from its input by that name,
/// whatever other members the input has: `snapshots.create` creates the
/// snapshot so named and fails without one, `agents.spawn` spawns from it
/// (or from the default when there is none), `agents.list` lists; any other
/// name is an unknown tool.
pub proof fn lemma_tool_requests(name: Seq<char>, input: Json)
    ensures
        catalogue().len() == 3,
        catalogue()[0].0 == "agents.list"@,
        catalogue()[1].0 == "agents.spawn"@,
        catalogue()[2].0 == "snapshots.create"@,
        catalogue()[2].2.get("required"@) == Some(Json::Array(seq![Json::Str("snapshot_id"@)])),
        request_of("agents.list"@, input) == Ok::<Request, (ErrorKind, Seq<char>)>(
            Request::ListAgents,
        ),
        forall|s: Seq<char>|
            input.get("snapshot_id"@) == Some(Json::Str(s)) ==> {
                &&& request_of("snapshots.create"@, input) == Ok::<
                    Request,
                    (ErrorKind, Seq<char>),
                >(Request::CreateSnapshot { snapshot_id: s })
                &&& request_of("agents.spawn"@, input) == Ok::<Request, (ErrorKind, Seq<char>)>(
                    Request::SpawnAgent { snapshot_id: Some(s) },
                )
            },
        !(input.get("snapshot_id"@) matches Some(Json::Str(_))) ==> {
            &&& request_of("snapshots.create"@, input) == Err::<Request, (ErrorKind, Seq<char>)>(
                (ErrorKind::Tool, "missing snapshot_id"@),
            )
            &&& request_of("agents.spawn"@, input) == Ok::<Request, (ErrorKind, Seq<char>)>(
                Request::SpawnAgent { snapshot_id: None },
            )
        },
        name != "agents.list"@ && name != "agents.spawn"@ && name != "snapshots.create"@
            ==> request_of(name, input) == Err::<Request, (ErrorKind, Seq<char>)>(
            (ErrorKind::Tool, "unknown tool: "@ + name),
        ),
{
    reveal_strlit("agents.list");
    reveal_strlit("agents.spawn");
    reveal_strlit("snapshots.create");
    reveal_strlit("type");
    reveal_strlit("properties");
    reveal_strlit("required");
    assert("agents.spawn"@ != "agents.list"@) by {
        assert("agents.spawn"@[7] != "agents.list"@[7]);
    }
    assert("snapshots.create"@ != "agents.list"@) by {
        assert("snapshots.create"@[0] != "agents.list"@[0]);
    }
    assert("snapshots.create"@ != "agents.spawn"@) by {
        assert("snapshots.create"@[0] != "agents.spawn"@[0]);
    }
    let f = catalogue()[2].2->Object_0;
    assert(f[0].0[0] != "required"@[0] && f[1].0[0] != "required"@[0]);
    lemma_get_first(f, "required"@, 2);
}

} // verus!
