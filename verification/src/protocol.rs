//! Messages between the host and the runtime inside a VM.
use vstd::prelude::*;
use vstd::string::*;

use crate::json::{Json, JsonValue};

verus! {

/// A request to the runtime: one of its three primitives.
#[derive(Debug)]
pub enum GuestRequest {
    ReadWorkspace { path: String },
    RunTool { name: String, input: JsonValue },
    EmitEvent { kind: String, payload: JsonValue },
}

/// The answer to a request: `ok` with a result, or not `ok` with an error.
#[derive(Debug)]
pub struct GuestResponse {
    pub ok: bool,
    pub result: Option<JsonValue>,
    pub error: Option<String>,
}

/// A structured event that an agent emitted.
#[derive(Debug)]
pub struct AgentEvent {
    pub kind: String,
    pub payload: JsonValue,
}

/// The mathematical content of a response.
pub struct Response {
    pub ok: bool,
    pub result: Option<Json>,
    pub error: Option<Seq<char>>,
}

impl View for GuestResponse {
    type V = Response;

    open spec fn view(&self) -> Response {
        Response {
            ok: self.ok,
            result: match self.result {
                Some(v) => Some(v@),
                None => None,
            },
            error: match self.error {
                Some(e) => Some(e@),
                None => None,
            },
        }
    }
}

/// A successful response carrying `result`.
pub open spec fn success_of(result: Json) -> Response {
    Response { ok: true, result: Some(result), error: None }
}

/// A failed response carrying `error`.
pub open spec fn failure_of(error: Seq<char>) -> Response {
    Response { ok: false, result: None, error: Some(error) }
}

impl GuestResponse {
    pub fn success(result: JsonValue) -> (r: GuestResponse)
        ensures
            r@ == success_of(result@),
    {
        GuestResponse { ok: true, result: Some(result), error: None }
    }

    pub fn failure(error: String) -> (r: GuestResponse)
        ensures
            r@ == failure_of(error@),
    {
        GuestResponse { ok: false, result: None, error: Some(error) }
    }
}

impl View for AgentEvent {
    type V = (Seq<char>, Json);

    open spec fn view(&self) -> (Seq<char>, Json) {
        (self.kind@, self.payload@)
    }
}

/// JSON form of an event: its kind and its payload.
pub open spec fn event_json(e: (Seq<char>, Json)) -> Json {
    Json::Object(seq![("kind"@, Json::Str(e.0)), ("payload"@, e.1)])
}

impl AgentEvent {
    /// A copy of the event.
    pub fn duplicate(&self) -> (r: AgentEvent)
        ensures
            r@ == self@,
    {
        AgentEvent { kind: self.kind.clone(), payload: self.payload.deep_clone() }
    }

    /// The event as JSON.
    pub fn to_json(&self) -> (r: JsonValue)
        ensures
            r@ == event_json(self@),
    {
        JsonValue::object2(
            "kind",
            JsonValue::Str(self.kind.clone()),
            "payload",
            self.payload.deep_clone(),
        )
    }
}

} // verus!

verus! {

/// A response is either `ok` with a result and no error, or not `ok` with an
/// error and no result.
pub open spec fn well_formed_response(r: Response) -> bool {
    &&& r.ok <==> r.result is Some
    &&& r.ok <==> r.error is None
}

/// Law: every response the runtime builds is well formed.
pub proof fn lemma_responses_well_formed(result: Json, error: Seq<char>)
    ensures
        well_formed_response(success_of(result)),
        well_formed_response(failure_of(error)),
{
}

} // verus!
