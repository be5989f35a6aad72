//! Built-in tools the runtime can run.
use vstd::prelude::*;
use vstd::string::*;

use crate::json::{Json, JsonValue};
use crate::text::{concat2, str_eq};

verus! {

/// What a tool produced.
#[derive(Debug)]
pub struct ToolOutcome {
    pub output: JsonValue,
}

/// The built-in tools: `echo` and `pwd`.
pub struct BuiltinTool;

/// The directory `pwd` reports.
pub const GUEST_WORKSPACE_DIR: &'static str = "/workspace";

/// The message `echo` repeats: member `message` of the input when it is a
/// string, else empty.
pub open spec fn echo_message(input: Json) -> Seq<char> {
    match input.str_member("message"@) {
        Some(m) => m,
        None => Seq::empty(),
    }
}

/// What running tool `name` on `input` gives: the output of a known tool, or
/// the error text for an unknown one.
pub open spec fn tool_result(name: Seq<char>, input: Json) -> Result<Json, Seq<char>> {
    if name == "echo"@ {
        Ok(Json::Object(seq![("message"@, Json::Str(echo_message(input)))]))
    } else if name == "pwd"@ {
        Ok(Json::Object(seq![("cwd"@, Json::Str(GUEST_WORKSPACE_DIR@))]))
    } else {
        Err("unknown tool: "@ + name)
    }
}

impl BuiltinTool {
    /// Runs tool `name` on `input`.
    pub fn run(name: &str, input: &JsonValue) -> (r: Result<ToolOutcome, String>)
        ensures
            tool_result(name@, input@) matches Ok(out) ==> (r matches Ok(o) && o.output@ == out),
            tool_result(name@, input@) matches Err(msg) ==> (r matches Err(e) && e@ == msg),
    {
        if str_eq(name, "echo") {
            let message: &str = match input.get("message") {
                Some(v) => match v.as_str() {
                    Some(s) => s,
                    None => "",
                },
                None => "",
            };
            proof {
                reveal_strlit("");
                assert(message@ == echo_message(input@));
            }
            Ok(ToolOutcome { output: JsonValue::object1("message", JsonValue::string(message)) })
        } else if str_eq(name, "pwd") {
            assert(name@ != "echo"@);
            Ok(
                ToolOutcome {
                    output: JsonValue::object1("cwd", JsonValue::string(GUEST_WORKSPACE_DIR)),
                },
            )
        } else {
            Err(concat2("unknown tool: ", name))
        }
    }
}

/// Law: `echo` answers with an object whose one member `message` repeats
/// the input's `message` when that is a string, whatever other members the
/// input has, and is empty otherwise; `pwd` reports `/workspace`; any other
/// name is an unknown tool.
pub proof fn lemma_builtin_tools(name: Seq<char>, input: Json)
    ensures
        forall|m: Seq<char>|
            input.get("message"@) == Some(Json::Str(m)) ==> tool_result("echo"@, input) == Ok::<Json, Seq<char>>(
                Json::Object(seq![("message"@, Json::Str(m))]),
            ),
        !(input.get("message"@) matches Some(Json::Str(_))) ==> tool_result("echo"@, input) == Ok::<Json, Seq<char>>(
            Json::Object(seq![("message"@, Json::Str(Seq::empty()))]),
        ),
        tool_result("pwd"@, input) == Ok::<Json, Seq<char>>(Json::Object(seq![("cwd"@, Json::Str("/workspace"@))])),
        name != "echo"@ && name != "pwd"@ ==> tool_result(name, input) == Err::<Json, Seq<char>>(
            "unknown tool: "@ + name,
        ),
{
    reveal_strlit("echo");
    reveal_strlit("pwd");
    assert("pwd"@ != "echo"@) by {
        assert("pwd"@[0] != "echo"@[0]);
    }
}

} // verus!
