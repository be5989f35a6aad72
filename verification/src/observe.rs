//! Observability: the events of tool calls, kept in a bounded log.
use vstd::prelude::*;
use std::collections::VecDeque;

use crate::agent::{record_json, uuid_text, AgentId, AgentRecord};
use crate::json::{Json, JsonValue};

verus! {

/// Something that happened on the tool surface.
#[derive(Debug)]
pub enum ToolEvent {
    ToolInvoked { id: u128, tool: String, input: JsonValue },
    ToolCompleted { id: u128, tool: String, output: JsonValue },
    ToolFailed { id: u128, tool: String, error: String },
    AgentSpawned { agent: AgentRecord },
}

/// The mathematical content of a `ToolEvent`.
pub enum Observation {
    ToolInvoked { id: u128, tool: Seq<char>, input: Json },
    ToolCompleted { id: u128, tool: Seq<char>, output: Json },
    ToolFailed { id: u128, tool: Seq<char>, error: Seq<char> },
    AgentSpawned { agent: AgentRecord },
}

impl View for ToolEvent {
    type V = Observation;

    open spec fn view(&self) -> Observation {
        match self {
            ToolEvent::ToolInvoked { id, tool, input } => Observation::ToolInvoked {
                id: *id,
                tool: tool@,
                input: input@,
            },
            ToolEvent::ToolCompleted { id, tool, output } => Observation::ToolCompleted {
                id: *id,
                tool: tool@,
                output: output@,
            },
            ToolEvent::ToolFailed { id, tool, error } => Observation::ToolFailed {
                id: *id,
                tool: tool@,
                error: error@,
            },
            ToolEvent::AgentSpawned { agent } => Observation::AgentSpawned { agent: *agent },
        }
    }
}

impl ToolEvent {
    /// A copy of the event.
    pub fn duplicate(&self) -> (r: ToolEvent)
        ensures
            r@ == self@,
    {
        match self {
            ToolEvent::ToolInvoked { id, tool, input } => ToolEvent::ToolInvoked {
                id: *id,
                tool: tool.clone(),
                input: input.deep_clone(),
            },
            ToolEvent::ToolCompleted { id, tool, output } => ToolEvent::ToolCompleted {
                id: *id,
                tool: tool.clone(),
                output: output.deep_clone(),
            },
            ToolEvent::ToolFailed { id, tool, error } => ToolEvent::ToolFailed {
                id: *id,
                tool: tool.clone(),
                error: error.clone(),
            },
            ToolEvent::AgentSpawned { agent } => ToolEvent::AgentSpawned { agent: agent.clone() },
        }
    }
}

/// JSON form of an event: an object tagged by `type`, with the call
/// identifier as hyphenated text.
pub open spec fn observation_json(o: Observation) -> Json {
    match o {
        Observation::ToolInvoked { id, tool, input } => Json::Object(
            seq![
                ("type"@, Json::Str("tool_invoked"@)),
                ("id"@, Json::Str(uuid_text(id))),
                ("tool"@, Json::Str(tool)),
                ("input"@, input),
            ],
        ),
        Observation::ToolCompleted { id, tool, output } => Json::Object(
            seq![
                ("type"@, Json::Str("tool_completed"@)),
                ("id"@, Json::Str(uuid_text(id))),
                ("tool"@, Json::Str(tool)),
                ("output"@, output),
            ],
        ),
        Observation::ToolFailed { id, tool, error } => Json::Object(
            seq![
                ("type"@, Json::Str("tool_failed"@)),
                ("id"@, Json::Str(uuid_text(id))),
                ("tool"@, Json::Str(tool)),
                ("error"@, Json::Str(error)),
            ],
        ),
        Observation::AgentSpawned { agent } => Json::Object(
            seq![("type"@, Json::Str("agent_spawned"@)), ("agent"@, record_json(agent))],
        ),
    }
}

fn tagged4(tag: &str, id: u128, tool: &String, key: &str, value: JsonValue) -> (r: JsonValue)
    ensures
        r@ == Json::Object(
            seq![
                ("type"@, Json::Str(tag@)),
                ("id"@, Json::Str(uuid_text(id))),
                ("tool"@, Json::Str(tool@)),
                (key@, value@),
            ],
        ),
{
    let mut v: Vec<(String, JsonValue)> = Vec::new();
    v.push((String::from_str("type"), JsonValue::string(tag)));
    v.push((String::from_str("id"), JsonValue::Str(AgentId(id).text())));
    v.push((String::from_str("tool"), JsonValue::Str(tool.clone())));
    v.push((String::from_str(key), value));
    let ghost f = v@;
    let r = JsonValue::Object(v);
    assert(r@->Object_0 =~= seq![
        ("type"@, Json::Str(tag@)),
        ("id"@, Json::Str(uuid_text(id))),
        ("tool"@, Json::Str(tool@)),
        (key@, value@),
    ]) by {
        assert forall|k: int| 0 <= k < 4 implies r@->Object_0[k] == (f[k].0@, f[k].1@) by {
            assert(r@->Object_0[k] == (f[k].0@, f[k].1.view_of()));
        }
    }
    r
}

impl ToolEvent {
    /// The event as JSON.
    pub fn to_json(&self) -> (r: JsonValue)
        ensures
            r@ == observation_json(self@),
    {
        match self {
            ToolEvent::ToolInvoked { id, tool, input } => tagged4(
                "tool_invoked",
                *id,
                tool,
                "input",
                input.deep_clone(),
            ),
            ToolEvent::ToolCompleted { id, tool, output } => tagged4(
                "tool_completed",
                *id,
                tool,
                "output",
                output.deep_clone(),
            ),
            ToolEvent::ToolFailed { id, tool, error } => tagged4(
                "tool_failed",
                *id,
                tool,
                "error",
                JsonValue::Str(error.clone()),
            ),
            ToolEvent::AgentSpawned { agent } => JsonValue::object2(
                "type",
                JsonValue::string("agent_spawned"),
                "agent",
                agent.to_json(),
            ),
        }
    }
}

/// How many events a log of `capacity` holds at most: a log always keeps the
/// newest event, even when its capacity is 0.
pub open spec fn retained(capacity: nat) -> nat {
    if capacity == 0 {
        1
    } else {
        capacity
    }
}

/// The log after `e` is pushed onto `log`: when the log is full, its oldest
/// event is dropped first.
pub open spec fn log_push<T>(log: Seq<T>, capacity: nat, e: T) -> Seq<T> {
    if log.len() >= capacity && log.len() > 0 {
        log.drop_first().push(e)
    } else {
        log.push(e)
    }
}

/// The newest events of `history`, as many as a log of `capacity` keeps.
pub open spec fn newest<T>(history: Seq<T>, capacity: nat) -> Seq<T> {
    if history.len() <= retained(capacity) {
        history
    } else {
        history.subrange(history.len() - retained(capacity), history.len() as int)
    }
}

/// Law: a log that holds the newest events of a history holds, after a
/// push, the newest events of the history extended by the pushed event. So
/// a log filled from empty holds exactly the most recent events, oldest
/// first, never more than `retained(capacity)` of them.
pub proof fn lemma_log_keeps_newest<T>(history: Seq<T>, capacity: nat, e: T)
    ensures
        log_push(newest(history, capacity), capacity, e) == newest(history.push(e), capacity),
        newest(history.push(e), capacity).len() <= retained(capacity),
        newest(history.push(e), capacity).last() == e,
{
    let h2 = history.push(e);
    let k = retained(capacity);
    if history.len() < k {
        assert(newest(history, capacity) == history);
        assert(h2.len() <= k);
        assert(newest(h2, capacity) == h2);
    } else {
        let old_log = newest(history, capacity);
        assert(old_log.len() == k);
        assert(old_log =~= history.subrange(history.len() - k, history.len() as int));
        assert(log_push(old_log, capacity, e) =~= h2.subrange(h2.len() - k, h2.len() as int));
    }
}

/// A bounded log of tool events, oldest first. Beside the events it holds,
/// it keeps (as ghost state) every event ever pushed onto it.
pub struct EventLog {
    inner: VecDeque<ToolEvent>,
    capacity: usize,
    history: Ghost<Seq<Observation>>,
}

impl EventLog {
    /// The log holds exactly the newest of the events pushed onto it.
    #[verifier::type_invariant]
    spec fn holds_newest(self) -> bool {
        self.inner@.map_values(|e: ToolEvent| e@) == newest(self.history@, self.capacity as nat)
    }

    /// The events held, oldest first.
    pub closed spec fn entries(&self) -> Seq<Observation> {
        self.inner@.map_values(|e: ToolEvent| e@)
    }

    /// How many events the log holds before it drops old ones.
    pub closed spec fn capacity_of(&self) -> nat {
        self.capacity as nat
    }

    /// Every event pushed onto the log since it was made, oldest first.
    pub closed spec fn pushed(&self) -> Seq<Observation> {
        self.history@
    }

    pub fn new(capacity: usize) -> (r: EventLog)
        ensures
            r.entries() == Seq::<Observation>::empty(),
            r.capacity_of() == capacity,
            r.pushed() == Seq::<Observation>::empty(),
    {
        let inner: VecDeque<ToolEvent> = VecDeque::with_capacity(capacity);
        assert(inner@.map_values(|e: ToolEvent| e@) =~= Seq::<Observation>::empty());
        assert(newest(Seq::<Observation>::empty(), capacity as nat) =~= Seq::<Observation>::empty());
        EventLog { inner, capacity, history: Ghost(Seq::empty()) }
    }

    /// An empty log that allocates nothing.
    fn empty(capacity: usize) -> (r: EventLog) {
        let inner: VecDeque<ToolEvent> = VecDeque::new();
        assert(inner@.map_values(|e: ToolEvent| e@) =~= Seq::<Observation>::empty());
        assert(newest(Seq::<Observation>::empty(), capacity as nat) =~= Seq::<Observation>::empty());
        EventLog { inner, capacity, history: Ghost(Seq::empty()) }
    }

    /// Appends `event`, dropping the oldest event first when the log is full.
    /// Afterwards the log holds the newest of all events pushed, this one
    /// last, and never more than `retained` of its capacity.
    pub fn push(&mut self, event: ToolEvent)
        ensures
            final(self).capacity_of() == old(self).capacity_of(),
            final(self).pushed() == old(self).pushed().push(event@),
            final(self).entries() == log_push(old(self).entries(), old(self).capacity_of(), event@),
            final(self).entries() == newest(final(self).pushed(), final(self).capacity_of()),
            final(self).entries().len() <= retained(final(self).capacity_of()),
            final(self).entries().last() == event@,
    {
        proof {
            use_type_invariant(&*self);
        }
        let ghost e = event@;
        let mut log = EventLog::empty(self.capacity);
        std::mem::swap(self, &mut log);
        proof {
            use_type_invariant(&log);
        }
        let EventLog { mut inner, capacity, history } = log;
        let ghost before = inner@;
        if inner.len() >= capacity {
            let _ = inner.pop_front();
        }
        let ghost mid = inner@;
        inner.push_back(event);
        proof {
            let f = |x: ToolEvent| x@;
            if before.len() >= capacity && before.len() > 0 {
                assert(mid == before.subrange(1, before.len() as int));
                assert(inner@.map_values(f) =~= before.map_values(f).drop_first().push(e));
            } else {
                assert(mid == before);
                assert(inner@.map_values(f) =~= before.map_values(f).push(e));
            }
            lemma_log_keeps_newest(history@, capacity as nat, e);
        }
        *self = EventLog { inner, capacity, history: Ghost(history@.push(e)) };
    }

    /// Copies of the events held, oldest first.
    pub fn list(&self) -> (r: Vec<ToolEvent>)
        ensures
            r@.map_values(|e: ToolEvent| e@) == self.entries(),
            r@.map_values(|e: ToolEvent| e@) == newest(self.pushed(), self.capacity_of()),
            r@.len() <= retained(self.capacity_of()),
    {
        proof {
            use_type_invariant(self);
            lemma_newest_len(self.pushed(), self.capacity_of());
        }
        let mut out: Vec<ToolEvent> = Vec::new();
        let n = self.inner.len();
        let mut i: usize = 0;
        while i < n
            invariant
                n == self.inner@.len(),
                i <= n,
                out@.len() == i,
                forall|j: int| 0 <= j < i ==> #[trigger] out@[j]@ == self.inner@[j]@,
            decreases n - i,
        {
            out.push(self.inner[i].duplicate());
            i = i + 1;
        }
        assert(out@.map_values(|e: ToolEvent| e@) =~= self.entries());
        out
    }
}

/// No more than `retained(capacity)` events are the newest.
proof fn lemma_newest_len<T>(history: Seq<T>, capacity: nat)
    ensures
        newest(history, capacity).len() <= retained(capacity),
{
}

} // verus!
