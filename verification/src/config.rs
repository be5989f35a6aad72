//! Host configuration, with paths held as strings.
use vstd::prelude::*;
use vstd::string::*;

use crate::path::{join, path_join};

verus! {

#[derive(Debug)]
pub struct FirecrackerConfig {
    pub binary: String,
    pub data_dir: String,
}

#[derive(Debug)]
pub struct GuestConfig {
    pub kernel_path: String,
    pub rootfs_path: String,
    pub vcpu_count: u8,
    pub mem_size_mib: u32,
}

#[derive(Debug)]
pub struct DispatcherConfig {
    pub base_snapshot_id: String,
    pub max_agents: usize,
}

#[derive(Debug)]
pub struct ToolsConfig {
    pub listen: String,
}

#[derive(Debug)]
pub struct AppConfig {
    pub firecracker: FirecrackerConfig,
    pub guest: GuestConfig,
    pub dispatcher: DispatcherConfig,
    pub tools: ToolsConfig,
}

impl Clone for FirecrackerConfig {
    fn clone(&self) -> (r: Self)
        ensures
            r == *self,
    {
        FirecrackerConfig { binary: self.binary.clone(), data_dir: self.data_dir.clone() }
    }
}

impl Clone for GuestConfig {
    fn clone(&self) -> (r: Self)
        ensures
            r == *self,
    {
        GuestConfig {
            kernel_path: self.kernel_path.clone(),
            rootfs_path: self.rootfs_path.clone(),
            vcpu_count: self.vcpu_count,
            mem_size_mib: self.mem_size_mib,
        }
    }
}

impl Clone for DispatcherConfig {
    fn clone(&self) -> (r: Self)
        ensures
            r == *self,
    {
        DispatcherConfig {
            base_snapshot_id: self.base_snapshot_id.clone(),
            max_agents: self.max_agents,
        }
    }
}

impl Clone for ToolsConfig {
    fn clone(&self) -> (r: Self)
        ensures
            r == *self,
    {
        ToolsConfig { listen: self.listen.clone() }
    }
}

impl Clone for AppConfig {
    fn clone(&self) -> (r: Self)
        ensures
            r == *self,
    {
        AppConfig {
            firecracker: self.firecracker.clone(),
            guest: self.guest.clone(),
            dispatcher: self.dispatcher.clone(),
            tools: self.tools.clone(),
        }
    }
}

/// `data_dir/snapshots/<id>`, joined as `PathBuf::join` joins.
pub open spec fn snapshot_dir_of(data_dir: Seq<char>, snapshot_id: Seq<char>) -> Seq<char> {
    join(join(data_dir, "snapshots"@), snapshot_id)
}

/// `data_dir/agents`, joined as `PathBuf::join` joins.
pub open spec fn agents_dir_of(data_dir: Seq<char>) -> Seq<char> {
    join(data_dir, "agents"@)
}

impl AppConfig {
    /// Directory that holds the files of snapshot `snapshot_id`.
    pub fn snapshot_dir(&self, snapshot_id: &str) -> (r: String)
        ensures
            r@ == snapshot_dir_of(self.firecracker.data_dir@, snapshot_id@),
    {
        let base = path_join(self.firecracker.data_dir.as_str(), "snapshots");
        path_join(base.as_str(), snapshot_id)
    }

    /// Directory under which each VM gets a directory of its own.
    pub fn agents_dir(&self) -> (r: String)
        ensures
            r@ == agents_dir_of(self.firecracker.data_dir@),
    {
        path_join(self.firecracker.data_dir.as_str(), "agents")
    }
}

} // verus!
