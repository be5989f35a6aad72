//! Host prerequisites: the KVM device, the Firecracker binary and the guest
//! kernel and root file system.
use vstd::prelude::*;
use vstd::string::*;

use crate::config::{agents_dir_of, AppConfig};
use crate::error::{
    ensure_kvm, ensure_path_exists, missing_text, reports, ErrorKind, QuickOsError, KVM_DEVICE,
    KVM_MISSING,
};
use crate::text::{concat2, concat4};

verus! {

/// Which prerequisites are present.
#[derive(Clone, Copy, Debug)]
pub struct EnvironmentReport {
    pub kvm: bool,
    pub firecracker_binary: bool,
    pub kernel: bool,
    pub rootfs: bool,
}

impl EnvironmentReport {
    /// Whether every prerequisite is present.
    pub fn all_ok(&self) -> (r: bool)
        ensures
            r == (self.kvm && self.firecracker_binary && self.kernel && self.rootfs),
    {
        self.kvm && self.firecracker_binary && self.kernel && self.rootfs
    }
}

/// Asks `present_at` about each prerequisite.
pub fn check_environment<F: Fn(&str) -> bool>(config: &AppConfig, present_at: &F) -> (r:
    EnvironmentReport)
    requires
        forall|p: &str| #[trigger] present_at.requires((p,)),
    ensures
        reports(*present_at, KVM_DEVICE@, r.kvm),
        reports(*present_at, config.firecracker.binary@, r.firecracker_binary),
        reports(*present_at, config.guest.kernel_path@, r.kernel),
        reports(*present_at, config.guest.rootfs_path@, r.rootfs),
{
    EnvironmentReport {
        kvm: ensure_kvm(present_at).is_ok(),
        firecracker_binary: present_at(config.firecracker.binary.as_str()),
        kernel: present_at(config.guest.kernel_path.as_str()),
        rootfs: present_at(config.guest.rootfs_path.as_str()),
    }
}

/// Checks the prerequisites in order (KVM, Firecracker binary, guest kernel,
/// guest root file system) and stops at the first that is missing. When all
/// are present, returns the directories to create: the data directory and
/// the agents directory.
pub fn require_environment<F: Fn(&str) -> bool>(config: &AppConfig, present_at: &F) -> (r: Result<
    Vec<String>,
    QuickOsError,
>)
    requires
        forall|p: &str| #[trigger] present_at.requires((p,)),
    ensures
        ({
            let kvm = KVM_DEVICE@;
            let binary = config.firecracker.binary@;
            let kernel = config.guest.kernel_path@;
            let rootfs = config.guest.rootfs_path@;
            &&& r matches Ok(dirs) ==> {
                &&& reports(*present_at, kvm, true)
                &&& reports(*present_at, binary, true)
                &&& reports(*present_at, kernel, true)
                &&& reports(*present_at, rootfs, true)
                &&& dirs@.len() == 2
                &&& dirs@[0]@ == config.firecracker.data_dir@
                &&& dirs@[1]@ == agents_dir_of(config.firecracker.data_dir@)
            }
            &&& r matches Err(e) ==> {
                ||| reports(*present_at, kvm, false) && e@ == (ErrorKind::Environment, KVM_MISSING@)
                ||| reports(*present_at, kvm, true) && reports(*present_at, binary, false) && e@
                    == (ErrorKind::Environment, missing_text("firecracker binary"@, binary))
                ||| reports(*present_at, kvm, true) && reports(*present_at, binary, true)
                    && reports(*present_at, kernel, false) && e@ == (
                    ErrorKind::Environment,
                    missing_text("guest kernel"@, kernel),
                )
                ||| reports(*present_at, kvm, true) && reports(*present_at, binary, true)
                    && reports(*present_at, kernel, true) && reports(*present_at, rootfs, false)
                    && e@ == (ErrorKind::Environment, missing_text("guest rootfs"@, rootfs))
            }
        }),
{
    ensure_kvm(present_at)?;
    ensure_path_exists(config.firecracker.binary.as_str(), "firecracker binary", present_at)?;
    ensure_path_exists(config.guest.kernel_path.as_str(), "guest kernel", present_at)?;
    ensure_path_exists(config.guest.rootfs_path.as_str(), "guest rootfs", present_at)?;
    let mut dirs: Vec<String> = Vec::new();
    dirs.push(config.firecracker.data_dir.clone());
    dirs.push(config.agents_dir());
    Ok(dirs)
}

/// How a check reads in the report.
pub open spec fn mark(ok: bool) -> Seq<char> {
    if ok {
        "ok"@
    } else {
        "MISSING"@
    }
}

fn mark_text(ok: bool) -> (r: &'static str)
    ensures
        r@ == mark(ok),
{
    if ok {
        "ok"
    } else {
        "MISSING"
    }
}

/// The lines of the environment report, in order.
pub open spec fn report_text(report: EnvironmentReport, config: AppConfig) -> Seq<Seq<char>> {
    seq![
        "quick-os environment check"@,
        "  /dev/kvm:              "@ + mark(report.kvm),
        "  firecracker binary:    "@ + mark(report.firecracker_binary) + " ("@
            + config.firecracker.binary@ + ")"@,
        "  guest kernel:          "@ + mark(report.kernel) + " ("@ + config.guest.kernel_path@
            + ")"@,
        "  guest rootfs:          "@ + mark(report.rootfs) + " ("@ + config.guest.rootfs_path@
            + ")"@,
        "  data dir:              "@ + config.firecracker.data_dir@,
    ]
}

fn marked_line(head: &str, ok: bool, path: &str) -> (r: String)
    ensures
        r@ == head@ + mark(ok) + " ("@ + path@ + ")"@,
{
    let mut s = concat4(head, mark_text(ok), " (", path);
    s.append(")");
    s
}

/// The lines of the environment report.
pub fn report_lines(report: &EnvironmentReport, config: &AppConfig) -> (r: Vec<String>)
    ensures
        r@.map_values(|l: String| l@) == report_text(*report, *config),
{
    let mut lines: Vec<String> = Vec::new();
    lines.push(String::from_str("quick-os environment check"));
    lines.push(concat2("  /dev/kvm:              ", mark_text(report.kvm)));
    lines.push(
        marked_line(
            "  firecracker binary:    ",
            report.firecracker_binary,
            config.firecracker.binary.as_str(),
        ),
    );
    lines.push(
        marked_line("  guest kernel:          ", report.kernel, config.guest.kernel_path.as_str()),
    );
    lines.push(
        marked_line("  guest rootfs:          ", report.rootfs, config.guest.rootfs_path.as_str()),
    );
    lines.push(concat2("  data dir:              ", config.firecracker.data_dir.as_str()));
    assert(lines@.map_values(|l: String| l@) =~= report_text(*report, *config));
    lines
}

} // verus!
