//! Agents: their identifiers and the record the dispatcher keeps of each.
use vstd::prelude::*;
use vstd::string::*;

use crate::json::{lemma_get_first, Json, JsonValue};

verus! {

/// Bits that a version-4 UUID fixes: the version nibble and the variant.
pub const V4_MASK: u128 = 0xF000_C000_0000_0000_0000u128;

/// Values of the bits under `V4_MASK` in a version-4 UUID (version 4,
/// RFC 4122 variant).
pub const V4_BITS: u128 = 0x4000_8000_0000_0000_0000u128;

/// Lower-case hexadecimal digit of `n` (below 16).
pub open spec fn hex_digit(n: u128) -> char {
    seq!['0', '1', '2', '3', '4', '5', '6', '7', '8', '9', 'a', 'b', 'c', 'd', 'e', 'f'][n as int]
}

/// The `k`-th hexadecimal digit of `bits`, counting from the most significant.
pub open spec fn nibble(bits: u128, k: int) -> u128 {
    (bits >> ((124 - 4 * k) as u128)) & 0xfu128
}

/// Number of hyphens before position `p` of the hyphenated form.
pub open spec fn hyphens_before(p: int) -> int {
    (if p > 8 { 1int } else { 0 }) + (if p > 13 { 1int } else { 0 }) + (if p > 18 { 1int } else { 0 }) + (
    if p > 23 { 1int } else { 0 })
}

/// The hyphenated lower-case form of a UUID: 32 hexadecimal digits, most
/// significant first, in groups of 8-4-4-4-12 joined by `-`.
pub open spec fn uuid_text(bits: u128) -> Seq<char> {
    Seq::new(
        36,
        |p: int|
            if p == 8 || p == 13 || p == 18 || p == 23 {
                '-'
            } else {
                hex_digit(nibble(bits, p - hyphens_before(p)))
            },
    )
}

/// Calls `uuid::Uuid::new_v4` and returns the UUID as a big-endian `u128`.
/// The crate fills the value from the operating system's random source and
/// then sets the version to 4 and the variant to RFC 4122; this contract
/// states those fixed bits and nothing of the random ones. The crate panics
/// if the random source fails.
#[verifier::external_body]
pub(crate) fn new_v4_bits() -> (r: u128)
    ensures
        r & V4_MASK == V4_BITS,
{
    uuid::Uuid::new_v4().as_u128()
}

/// The hexadecimal digit `n` (below 16), as text.
fn hex_text(n: u128) -> (r: &'static str)
    requires
        n < 16,
    ensures
        r@ == seq![hex_digit(n)],
{
    match n {
        0 => {
            proof {
                reveal_strlit("0");
            }
            "0"
        },
        1 => {
            proof {
                reveal_strlit("1");
            }
            "1"
        },
        2 => {
            proof {
                reveal_strlit("2");
            }
            "2"
        },
        3 => {
            proof {
                reveal_strlit("3");
            }
            "3"
        },
        4 => {
            proof {
                reveal_strlit("4");
            }
            "4"
        },
        5 => {
            proof {
                reveal_strlit("5");
            }
            "5"
        },
        6 => {
            proof {
                reveal_strlit("6");
            }
            "6"
        },
        7 => {
            proof {
                reveal_strlit("7");
            }
            "7"
        },
        8 => {
            proof {
                reveal_strlit("8");
            }
            "8"
        },
        9 => {
            proof {
                reveal_strlit("9");
            }
            "9"
        },
        10 => {
            proof {
                reveal_strlit("a");
            }
            "a"
        },
        11 => {
            proof {
                reveal_strlit("b");
            }
            "b"
        },
        12 => {
            proof {
                reveal_strlit("c");
            }
            "c"
        },
        13 => {
            proof {
                reveal_strlit("d");
            }
            "d"
        },
        14 => {
            proof {
                reveal_strlit("e");
            }
            "e"
        },
        _ => {
            proof {
                reveal_strlit("f");
            }
            "f"
        },
    }
}

/// The hyphenated lower-case form of the UUID whose big-endian value is
/// `bits`, as `uuid::Uuid` displays it.
fn hyphenated_text(bits: u128) -> (r: String)
    ensures
        r@ == uuid_text(bits),
{
    let mut out = String::new();
    let mut digits: u128 = 0;
    let mut p: usize = 0;
    while p < 36
        invariant
            p <= 36,
            digits == p - hyphens_before(p as int),
            out@ == uuid_text(bits).take(p as int),
        decreases 36 - p,
    {
        let ghost before = out@;
        if p == 8 || p == 13 || p == 18 || p == 23 {
            proof {
                reveal_strlit("-");
            }
            out.append("-");
        } else {
            let shift: u128 = 124 - 4 * digits;
            let d = (bits >> shift) & 0xf;
            assert(d < 16) by (bit_vector)
                requires
                    d == (bits >> shift) & 0xf,
            ;
            assert(d == nibble(bits, digits as int));
            out.append(hex_text(d));
            digits = digits + 1;
        }
        assert(out@ =~= uuid_text(bits).take(p + 1)) by {
            assert(before =~= uuid_text(bits).take(p as int));
        }
        p = p + 1;
    }
    assert(out@ =~= uuid_text(bits));
    out
}

/// Identifier of an agent: a random (version 4) UUID, held as its
/// big-endian 128-bit value.
#[derive(Clone, Copy, Debug, PartialEq, Eq, Hash, Structural)]
pub struct AgentId(pub u128);

impl AgentId {
    /// A fresh random identifier.
    pub fn new() -> (r: AgentId)
        ensures
            r.0 & V4_MASK == V4_BITS,
    {
        AgentId(new_v4_bits())
    }

    /// The hyphenated text of the identifier, as `Display` shows it.
    pub fn text(&self) -> (r: String)
        ensures
            r@ == uuid_text(self.0),
    {
        hyphenated_text(self.0)
    }
}

/// State of an agent VM.
#[derive(Clone, Copy, Debug, PartialEq, Eq, Structural)]
pub enum AgentState {
    Running,
}

/// How a state is written in JSON.
pub open spec fn state_text(s: AgentState) -> Seq<char> {
    match s {
        AgentState::Running => "Running"@,
    }
}

impl AgentState {
    pub fn text(&self) -> (r: &'static str)
        ensures
            r@ == state_text(*self),
    {
        match self {
            AgentState::Running => "Running",
        }
    }
}

/// What the dispatcher keeps of a running agent.
#[derive(Debug)]
pub struct AgentRecord {
    pub id: AgentId,
    pub state: AgentState,
    pub snapshot_id: String,
    pub socket_path: String,
    pub vm_dir: String,
}

impl Clone for AgentRecord {
    fn clone(&self) -> (r: Self)
        ensures
            r == *self,
    {
        AgentRecord {
            id: self.id,
            state: self.state,
            snapshot_id: self.snapshot_id.clone(),
            socket_path: self.socket_path.clone(),
            vm_dir: self.vm_dir.clone(),
        }
    }
}

/// JSON form of a record: an object with its five fields, the identifier as
/// hyphenated text.
pub open spec fn record_json(r: AgentRecord) -> Json {
    Json::Object(
        seq![
            ("id"@, Json::Str(uuid_text(r.id.0))),
            ("state"@, Json::Str(state_text(r.state))),
            ("snapshot_id"@, Json::Str(r.snapshot_id@)),
            ("socket_path"@, Json::Str(r.socket_path@)),
            ("vm_dir"@, Json::Str(r.vm_dir@)),
        ],
    )
}

impl AgentRecord {
    /// The record as JSON.
    pub fn to_json(&self) -> (r: JsonValue)
        ensures
            r@ == record_json(*self),
    {
        let mut fields: Vec<(String, JsonValue)> = Vec::new();
        fields.push((String::from_str("id"), JsonValue::Str(self.id.text())));
        fields.push((String::from_str("state"), JsonValue::string(self.state.text())));
        fields.push((String::from_str("snapshot_id"), JsonValue::Str(self.snapshot_id.clone())));
        fields.push((String::from_str("socket_path"), JsonValue::Str(self.socket_path.clone())));
        fields.push((String::from_str("vm_dir"), JsonValue::Str(self.vm_dir.clone())));
        let ghost f = fields@;
        let r = JsonValue::Object(fields);
        assert(r@->Object_0 =~= record_json(*self)->Object_0) by {
            assert forall|k: int| 0 <= k < 5 implies r@->Object_0[k] == record_json(*self)->Object_0[k] by {
                assert(r@->Object_0[k] == (f[k].0@, f[k].1.view_of()));
            }
        }
        r
    }
}

/// Law: the JSON of a record carries each field under its own name: the
/// identifier as its hyphenated text, the state as its name, and the
/// snapshot, socket and directory as they are.
pub proof fn lemma_record_json_fields(r: AgentRecord)
    ensures
        record_json(r).get("id"@) == Some(Json::Str(uuid_text(r.id.0))),
        r.state == AgentState::Running ==> record_json(r).get("state"@) == Some(
            Json::Str("Running"@),
        ),
        record_json(r).get("snapshot_id"@) == Some(Json::Str(r.snapshot_id@)),
        record_json(r).get("socket_path"@) == Some(Json::Str(r.socket_path@)),
        record_json(r).get("vm_dir"@) == Some(Json::Str(r.vm_dir@)),
{
    reveal_strlit("id");
    reveal_strlit("state");
    reveal_strlit("snapshot_id");
    reveal_strlit("socket_path");
    reveal_strlit("vm_dir");
    let f = record_json(r)->Object_0;
    assert("snapshot_id"@[1] != "socket_path"@[1]);
    assert("snapshot_id"@ != "socket_path"@);
    assert(f[0].0[0] != "state"@[0]);
    assert(f[0].0[0] != "vm_dir"@[0] && f[1].0[0] != "vm_dir"@[0] && f[2].0[0] != "vm_dir"@[0]
        && f[3].0[0] != "vm_dir"@[0]);
    lemma_get_first(f, "id"@, 0);
    lemma_get_first(f, "state"@, 1);
    lemma_get_first(f, "snapshot_id"@, 2);
    lemma_get_first(f, "socket_path"@, 3);
    lemma_get_first(f, "vm_dir"@, 4);
}

/// Law: the text of an identifier is 36 characters long, with `-` at
/// positions 8, 13, 18 and 23 and a lower-case hexadecimal digit
/// everywhere else; the digits are the 32 nibbles of the identifier, most
/// significant first.
pub proof fn lemma_uuid_text_shape(bits: u128)
    ensures
        uuid_text(bits).len() == 36,
        uuid_text(bits)[8] == '-' && uuid_text(bits)[13] == '-' && uuid_text(bits)[18] == '-'
            && uuid_text(bits)[23] == '-',
        uuid_text(bits)[0] == hex_digit(bits >> 124u128),
        uuid_text(bits)[35] == hex_digit(bits & 0xfu128),
{
    assert((bits >> 124u128) & 0xfu128 == bits >> 124u128) by (bit_vector);
    assert(bits >> 0u128 == bits) by (bit_vector);
}

} // verus!
