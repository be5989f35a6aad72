//! The runtime inside a VM: it carries out the three primitives.
use vstd::prelude::*;
use vstd::string::*;

use crate::json::{Json, JsonValue};
use crate::path::join;
use crate::primitives::{tool_result, BuiltinTool};
use crate::protocol::{
    event_json, failure_of, success_of, AgentEvent, GuestRequest, GuestResponse, Response,
};
use crate::workspace::{
    escapes, within, workspace_error_text, Workspace, WorkspaceError, WorkspaceErrorKind,
};

verus! {

/// What the runtime does next for a request: answer it, or have the file at
/// `full_path` read (for the request that named `path`), confined to the
/// workspace by `read_confined`.
#[derive(Debug)]
pub enum RuntimeStep {
    Respond(GuestResponse),
    ReadFile { path: String, full_path: String },
}

/// Answer to reading `path`: its content, or the read error's text.
pub open spec fn read_response_of(path: Seq<char>, outcome: Result<Seq<char>, Seq<char>>) -> Response {
    match outcome {
        Ok(content) => success_of(
            Json::Object(seq![("path"@, Json::Str(path)), ("content"@, Json::Str(content))]),
        ),
        Err(e) => failure_of(workspace_error_text((WorkspaceErrorKind::Io, e))),
    }
}

/// The text of a read's outcome: the content, or the error's text.
pub open spec fn outcome_text(outcome: Result<String, String>) -> Result<Seq<char>, Seq<char>> {
    match outcome {
        Ok(c) => Ok(c@),
        Err(e) => Err(e@),
    }
}

/// Answer to running a tool.
pub open spec fn tool_response_of(name: Seq<char>, input: Json) -> Response {
    match tool_result(name, input) {
        Ok(out) => success_of(out),
        Err(e) => failure_of(e),
    }
}

/// Answer to emitting an event.
pub open spec fn emit_response_of(event: (Seq<char>, Json)) -> Response {
    success_of(Json::Object(seq![("recorded"@, Json::Bool(true)), ("event"@, event_json(event))]))
}

/// Builds the answer to reading `path`, from what the file system gave: the
/// file's content, or the text of its error.
pub fn read_response(path: &str, outcome: Result<String, String>) -> (r: GuestResponse)
    ensures
        r@ == read_response_of(
            path@,
            match outcome {
                Ok(c) => Ok(c@),
                Err(e) => Err(e@),
            },
        ),
{
    match outcome {
        Ok(content) => GuestResponse::success(
            JsonValue::object2("path", JsonValue::string(path), "content", JsonValue::Str(content)),
        ),
        Err(e) => GuestResponse::failure(WorkspaceError::Io(e).message()),
    }
}

/// The events a request records: the one it emits, or none.
pub open spec fn emitted_by(request: GuestRequest) -> Seq<(Seq<char>, Json)> {
    match request {
        GuestRequest::EmitEvent { kind, payload } => seq![(kind@, payload@)],
        _ => Seq::empty(),
    }
}

/// The events a sequence of requests records, in order.
pub open spec fn emitted(requests: Seq<GuestRequest>) -> Seq<(Seq<char>, Json)>
    decreases requests.len(),
{
    if requests.len() == 0 {
        Seq::empty()
    } else {
        emitted(requests.drop_last()) + emitted_by(requests.last())
    }
}

/// Reads the file that a request named `path`, confined to the workspace:
/// given the canonical form of the workspace's root and of the path that
/// `resolve` gave (symbolic links followed), `read` is called on the target
/// only when it lies within the root, and the answer carries what it gave;
/// otherwise nothing is read and the answer is an escape error naming `path`.
pub fn read_confined<F: Fn(&str) -> Result<String, String>>(
    path: &str,
    canonical_root: &str,
    canonical_target: &str,
    read: &F,
) -> (r: GuestResponse)
    requires
        forall|p: &str| #[trigger] read.requires((p,)),
    ensures
        !within(canonical_root@, canonical_target@) ==> r@ == failure_of(
            workspace_error_text((WorkspaceErrorKind::Escape, path@)),
        ),
        within(canonical_root@, canonical_target@) ==> exists|o: Result<String, String>|
            read.ensures((canonical_target,), o) && r@ == read_response_of(path@, outcome_text(o)),
{
    match Workspace::confine(path, canonical_root, canonical_target) {
        Ok(()) => {
            let outcome = read(canonical_target);
            let ghost o = outcome;
            let r = read_response(path, outcome);
            assert(read.ensures((canonical_target,), o) && r@ == read_response_of(path@, outcome_text(o)));
            r
        },
        Err(e) => GuestResponse::failure(e.message()),
    }
}

/// In-VM agent runtime: a workspace and the events emitted so far. Beside
/// them it keeps (as ghost state) every request it has handled.
pub struct AgentRuntime {
    workspace: Workspace,
    events: Vec<AgentEvent>,
    history: Ghost<Seq<GuestRequest>>,
}

impl AgentRuntime {
    /// The events recorded are exactly those the handled requests emitted.
    #[verifier::type_invariant]
    spec fn records_emitted(self) -> bool {
        self.events@.map_values(|e: AgentEvent| e@) == emitted(self.history@)
    }

    /// The directory of the runtime's workspace.
    pub closed spec fn root_path(&self) -> Seq<char> {
        self.workspace.root_path()
    }

    /// The events recorded so far, oldest first.
    pub closed spec fn recorded(&self) -> Seq<(Seq<char>, Json)> {
        self.events@.map_values(|e: AgentEvent| e@)
    }

    /// Every request handled since the runtime was made, in order.
    pub closed spec fn handled(&self) -> Seq<GuestRequest> {
        self.history@
    }

    pub fn new(workspace: Workspace) -> (r: AgentRuntime)
        ensures
            r.root_path() == workspace.root_path(),
            r.recorded() == Seq::<(Seq<char>, Json)>::empty(),
            r.handled() == Seq::<GuestRequest>::empty(),
    {
        let events: Vec<AgentEvent> = Vec::new();
        assert(events@.map_values(|e: AgentEvent| e@) =~= emitted(Seq::<GuestRequest>::empty()));
        AgentRuntime { workspace, events, history: Ghost(Seq::empty()) }
    }

    /// The events recorded so far, oldest first: those that the requests
    /// handled so far emitted, in the order they came.
    pub fn events(&self) -> (r: &[AgentEvent])
        ensures
            r@.map_values(|e: AgentEvent| e@) == self.recorded(),
            r@.map_values(|e: AgentEvent| e@) == emitted(self.handled()),
    {
        proof {
            use_type_invariant(self);
        }
        self.events.as_slice()
    }

    /// Carries out a request. Reading is left to the caller: for an
    /// acceptable path the step names the file to read.
    pub fn handle(&mut self, request: GuestRequest) -> (r: RuntimeStep)
        ensures
            final(self).root_path() == old(self).root_path(),
            final(self).handled() == old(self).handled().push(request),
            final(self).recorded() == old(self).recorded() + emitted_by(request),
            final(self).recorded() == emitted(final(self).handled()),
            match request {
                GuestRequest::ReadWorkspace { path } => {
                    &&& final(self).recorded() == old(self).recorded()
                    &&& escapes(path@) ==> (r matches RuntimeStep::Respond(resp) && resp@
                        == failure_of(
                        workspace_error_text((WorkspaceErrorKind::Escape, path@)),
                    ))
                    &&& !escapes(path@) ==> (r matches RuntimeStep::ReadFile { path: p, full_path }
                        && p@ == path@ && full_path@ == join(old(self).root_path(), path@))
                },
                GuestRequest::RunTool { name, input } => {
                    &&& final(self).recorded() == old(self).recorded()
                    &&& r matches RuntimeStep::Respond(resp) && resp@ == tool_response_of(
                        name@,
                        input@,
                    )
                },
                GuestRequest::EmitEvent { kind, payload } => {
                    &&& final(self).recorded() == old(self).recorded().push((kind@, payload@))
                    &&& r matches RuntimeStep::Respond(resp) && resp@ == emit_response_of(
                        (kind@, payload@),
                    )
                },
            },
    {
        proof {
            use_type_invariant(&*self);
        }
        let ghost req = request;
        let ghost recorded_before = self.recorded();
        let ghost handled_after = self.history@.push(req);
        proof {
            assert(handled_after.drop_last() =~= self.history@);
            assert(recorded_before + Seq::<(Seq<char>, Json)>::empty() =~= recorded_before);
        }
        match request {
            GuestRequest::ReadWorkspace { path } => {
                self.history = Ghost(handled_after);
                match self.workspace.resolve(path.as_str()) {
                    Ok(full_path) => RuntimeStep::ReadFile { path, full_path },
                    Err(e) => RuntimeStep::Respond(GuestResponse::failure(e.message())),
                }
            },
            GuestRequest::RunTool { name, input } => {
                self.history = Ghost(handled_after);
                match BuiltinTool::run(name.as_str(), &input) {
                    Ok(outcome) => RuntimeStep::Respond(GuestResponse::success(outcome.output)),
                    Err(e) => RuntimeStep::Respond(GuestResponse::failure(e)),
                }
            },
            GuestRequest::EmitEvent { kind, payload } => {
                let event = AgentEvent { kind, payload };
                let ghost ev = event@;
                let answer = JsonValue::object2(
                    "recorded",
                    JsonValue::Bool(true),
                    "event",
                    event.to_json(),
                );
                let mut runtime = AgentRuntime::new(Workspace::new(""));
                std::mem::swap(self, &mut runtime);
                let AgentRuntime { workspace, mut events, history: _ } = runtime;
                let ghost before = events@;
                events.push(event);
                proof {
                    assert(events@.map_values(|e: AgentEvent| e@) =~= before.map_values(
                        |e: AgentEvent| e@,
                    ).push(ev));
                    assert(recorded_before.push(ev) =~= recorded_before + seq![ev]);
                }
                *self = AgentRuntime { workspace, events, history: Ghost(handled_after) };
                RuntimeStep::Respond(GuestResponse::success(answer))
            },
        }
    }
}

} // verus!
