//! Where the files of a VM snapshot lie.
use vstd::prelude::*;
use vstd::string::*;

use crate::config::snapshot_dir_of;
use crate::path::{is_plain_name, join, lemma_parent_of_join, parent, path_parent, trimmed};

verus! {

/// File name of the VM state in a snapshot directory.
pub const VM_STATE_FILE: &'static str = "vm_state.snap";

/// File name of the guest memory in a snapshot directory.
pub const MEM_FILE: &'static str = "mem.snap";

#[derive(Debug)]
pub struct SnapshotRef {
    pub id: String,
    pub vm_state_path: String,
    pub mem_path: String,
}

impl Clone for SnapshotRef {
    fn clone(&self) -> (r: Self)
        ensures
            r == *self,
    {
        SnapshotRef {
            id: self.id.clone(),
            vm_state_path: self.vm_state_path.clone(),
            mem_path: self.mem_path.clone(),
        }
    }
}

/// The snapshot named `id` whose files lie in directory `dir`.
pub open spec fn snapshot_in(snapshot: SnapshotRef, id: Seq<char>, dir: Seq<char>) -> bool {
    &&& snapshot.id@ == id
    &&& snapshot.vm_state_path@ == join(dir, VM_STATE_FILE@)
    &&& snapshot.mem_path@ == join(dir, MEM_FILE@)
}

impl SnapshotRef {
    /// The snapshot named `id` whose files lie in directory `dir`.
    pub fn in_dir(id: &str, dir: &str) -> (r: SnapshotRef)
        ensures
            snapshot_in(r, id@, dir@),
    {
        SnapshotRef {
            id: String::from_str(id),
            vm_state_path: crate::path::path_join(dir, VM_STATE_FILE),
            mem_path: crate::path::path_join(dir, MEM_FILE),
        }
    }

    /// The directory of the snapshot: the parent of its VM state file.
    pub fn dir(&self) -> (r: String)
        requires
            parent(self.vm_state_path@) is Some,
        ensures
            parent(self.vm_state_path@) == Some(r@),
    {
        match path_parent(self.vm_state_path.as_str()) {
            Some(p) => p,
            None => {
                proof {
                    assert(false);
                }
                String::new()
            },
        }
    }
}

/// Law: a snapshot laid out in directory `dir` reports `dir` (without
/// trailing separators or `.` pieces) as its directory, so `dir` never panics
/// on it.
pub proof fn lemma_snapshot_dir(snapshot: SnapshotRef, id: Seq<char>, dir: Seq<char>)
    requires
        snapshot_in(snapshot, id, dir),
    ensures
        parent(snapshot.vm_state_path@) == Some(trimmed(dir)),
{
    reveal_strlit("vm_state.snap");
    assert(is_plain_name(VM_STATE_FILE@)) by {
        assert(VM_STATE_FILE@ != seq!['.']) by {
            assert(VM_STATE_FILE@.len() != 1);
        }
    }
    lemma_parent_of_join(dir, VM_STATE_FILE@);
}

/// Law: the snapshot named `id` under data directory `data_dir` keeps its
/// VM state in `<data_dir>/snapshots/<id>/vm_state.snap` and its memory in
/// `<data_dir>/snapshots/<id>/mem.snap`.
pub proof fn lemma_snapshot_files(snapshot: SnapshotRef, data_dir: Seq<char>, id: Seq<char>)
    requires
        snapshot_in(snapshot, id, snapshot_dir_of(data_dir, id)),
    ensures
        snapshot.id@ == id,
        snapshot.vm_state_path@ == join(join(join(data_dir, "snapshots"@), id), "vm_state.snap"@),
        snapshot.mem_path@ == join(join(join(data_dir, "snapshots"@), id), "mem.snap"@),
{
}

} // verus!
