//! Errors of the host side, and the checks of its prerequisites.
use vstd::prelude::*;
use vstd::string::*;

use crate::text::{concat2, concat4};

verus! {

/// Which kind of failure a `QuickOsError` reports.
#[derive(Clone, Copy, Debug, PartialEq, Eq, Structural)]
pub enum ErrorKind {
    Config,
    Environment,
    Firecracker,
    Dispatcher,
    AgentNotFound,
    Tool,
    Io,
    Toml,
}

/// Errors of the host side. `Io` and `Toml` carry the text of the error that
/// the file system or the TOML parser reported.
#[derive(Debug)]
pub enum QuickOsError {
    Config(String),
    Environment(String),
    Firecracker(String),
    Dispatcher(String),
    AgentNotFound(String),
    Tool(String),
    Io(String),
    Toml(String),
}

impl View for QuickOsError {
    type V = (ErrorKind, Seq<char>);

    open spec fn view(&self) -> (ErrorKind, Seq<char>) {
        match self {
            QuickOsError::Config(m) => (ErrorKind::Config, m@),
            QuickOsError::Environment(m) => (ErrorKind::Environment, m@),
            QuickOsError::Firecracker(m) => (ErrorKind::Firecracker, m@),
            QuickOsError::Dispatcher(m) => (ErrorKind::Dispatcher, m@),
            QuickOsError::AgentNotFound(m) => (ErrorKind::AgentNotFound, m@),
            QuickOsError::Tool(m) => (ErrorKind::Tool, m@),
            QuickOsError::Io(m) => (ErrorKind::Io, m@),
            QuickOsError::Toml(m) => (ErrorKind::Toml, m@),
        }
    }
}

/// The text an error displays: a prefix naming its kind, then its detail.
/// `Io` and `Toml` show the underlying error's text alone.
pub open spec fn error_text(kind: ErrorKind, detail: Seq<char>) -> Seq<char> {
    match kind {
        ErrorKind::Config => "configuration: "@ + detail,
        ErrorKind::Environment => "environment: "@ + detail,
        ErrorKind::Firecracker => "firecracker: "@ + detail,
        ErrorKind::Dispatcher => "dispatcher: "@ + detail,
        ErrorKind::AgentNotFound => "agent not found: "@ + detail,
        ErrorKind::Tool => "tool: "@ + detail,
        ErrorKind::Io => detail,
        ErrorKind::Toml => detail,
    }
}

impl QuickOsError {
    pub fn config(msg: &str) -> (r: QuickOsError)
        ensures
            r@ == (ErrorKind::Config, msg@),
    {
        QuickOsError::Config(String::from_str(msg))
    }

    pub fn environment(msg: &str) -> (r: QuickOsError)
        ensures
            r@ == (ErrorKind::Environment, msg@),
    {
        QuickOsError::Environment(String::from_str(msg))
    }

    pub fn firecracker(msg: &str) -> (r: QuickOsError)
        ensures
            r@ == (ErrorKind::Firecracker, msg@),
    {
        QuickOsError::Firecracker(String::from_str(msg))
    }

    pub fn dispatcher(msg: &str) -> (r: QuickOsError)
        ensures
            r@ == (ErrorKind::Dispatcher, msg@),
    {
        QuickOsError::Dispatcher(String::from_str(msg))
    }

    pub fn tool(msg: &str) -> (r: QuickOsError)
        ensures
            r@ == (ErrorKind::Tool, msg@),
    {
        QuickOsError::Tool(String::from_str(msg))
    }

    /// The kind of this error.
    pub fn kind(&self) -> (r: ErrorKind)
        ensures
            r == self@.0,
    {
        match self {
            QuickOsError::Config(_) => ErrorKind::Config,
            QuickOsError::Environment(_) => ErrorKind::Environment,
            QuickOsError::Firecracker(_) => ErrorKind::Firecracker,
            QuickOsError::Dispatcher(_) => ErrorKind::Dispatcher,
            QuickOsError::AgentNotFound(_) => ErrorKind::AgentNotFound,
            QuickOsError::Tool(_) => ErrorKind::Tool,
            QuickOsError::Io(_) => ErrorKind::Io,
            QuickOsError::Toml(_) => ErrorKind::Toml,
        }
    }

    /// The text the error displays.
    pub fn message(&self) -> (r: String)
        ensures
            r@ == error_text(self@.0, self@.1),
    {
        match self {
            QuickOsError::Config(m) => concat2("configuration: ", m.as_str()),
            QuickOsError::Environment(m) => concat2("environment: ", m.as_str()),
            QuickOsError::Firecracker(m) => concat2("firecracker: ", m.as_str()),
            QuickOsError::Dispatcher(m) => concat2("dispatcher: ", m.as_str()),
            QuickOsError::AgentNotFound(m) => concat2("agent not found: ", m.as_str()),
            QuickOsError::Tool(m) => concat2("tool: ", m.as_str()),
            QuickOsError::Io(m) => m.clone(),
            QuickOsError::Toml(m) => m.clone(),
        }
    }
}

/// The device that KVM is reached through.
pub const KVM_DEVICE: &'static str = "/dev/kvm";

/// What `ensure_kvm` reports when the KVM device is missing.
pub const KVM_MISSING: &'static str = "/dev/kvm not found — enable KVM on the host (bare metal or privileged VM with nested virt)";

/// What `ensure_path_exists` reports for a missing path.
pub open spec fn missing_text(label: Seq<char>, path: Seq<char>) -> Seq<char> {
    "missing "@ + label + ": "@ + path
}

/// `f` answered `present` when asked about a path with text `path`.
pub open spec fn reports<F: Fn(&str) -> bool>(f: F, path: Seq<char>, present: bool) -> bool {
    exists|p: &str| p@ == path && #[trigger] f.ensures((p,), present)
}

/// Succeeds when `present_at` reports `path` present; otherwise an
/// environment error naming the missing `label` and path. `present_at` is
/// asked once, about `path`.
pub fn ensure_path_exists<F: Fn(&str) -> bool>(path: &str, label: &str, present_at: &F) -> (r:
    Result<(), QuickOsError>)
    requires
        forall|p: &str| #[trigger] present_at.requires((p,)),
    ensures
        r is Ok ==> reports(*present_at, path@, true),
        r matches Err(e) ==> reports(*present_at, path@, false) && e@ == (
            ErrorKind::Environment,
            missing_text(label@, path@),
        ),
{
    let present = present_at(path);
    if present {
        Ok(())
    } else {
        Err(QuickOsError::Environment(concat4("missing ", label, ": ", path)))
    }
}

/// Succeeds when `present_at` reports the KVM device present; otherwise an
/// environment error telling how to enable KVM.
pub fn ensure_kvm<F: Fn(&str) -> bool>(present_at: &F) -> (r: Result<(), QuickOsError>)
    requires
        forall|p: &str| #[trigger] present_at.requires((p,)),
    ensures
        r is Ok ==> reports(*present_at, KVM_DEVICE@, true),
        r matches Err(e) ==> reports(*present_at, KVM_DEVICE@, false) && e@ == (
            ErrorKind::Environment,
            KVM_MISSING@,
        ),
{
    if !present_at(KVM_DEVICE) {
        return Err(QuickOsError::environment(KVM_MISSING));
    }
    Ok(())
}

} // verus!
