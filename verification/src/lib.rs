//! quick-os: a host that runs agents in Firecracker microVMs, and agent-os,
//! the runtime inside each VM.
//!
//! The library holds the decisions of both sides with their contracts: the
//! sandboxing of an agent's workspace, the runtime's primitives, the
//! dispatcher's registry of agents, the API calls that boot, restore and
//! snapshot VMs, and the bounded log of the tool surface. Reading files,
//! starting processes and talking HTTP are left to the program around it,
//! which the library tells what to do and hands the results back to.
pub mod agent;
pub mod config;
pub mod dispatcher;
pub mod environment;
pub mod error;
pub mod firecracker;
pub mod json;
pub mod observe;
pub mod path;
pub mod primitives;
pub mod protocol;
pub mod registry;
pub mod runtime;
pub mod snapshot;
pub mod text;
pub mod workspace;
