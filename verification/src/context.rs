//! The install context: what disk setup decided, and paths in the target.

use vstd::prelude::*;
use crate::types::{BtrfsLayout, FsType, VolumeManager};

verus! {

/// Root mountpoint for the target system.
pub const TARGET: &'static str = "/mnt";

/// The abstract content of an [`InstallContext`].
pub struct ContextView {
    pub root_device: Seq<char>,
    pub efi_device: Seq<char>,
    pub fs_type: FsType,
    pub btrfs_layout: Option<BtrfsLayout>,
    pub volume_mgr: VolumeManager,
}

#[derive(Debug)]
pub struct InstallContext {
    /// Device path for the root filesystem: a partition (e.g.
    /// `/dev/nvme0n1p2`) or an LVM logical volume (`/dev/vg_void/lv_root`).
    pub root_device: String,
    /// Device path for the EFI system partition.
    pub efi_device: String,
    pub fs_type: FsType,
    /// `None` when the filesystem is not BTRFS.
    pub btrfs_layout: Option<BtrfsLayout>,
    pub volume_mgr: VolumeManager,
}

impl View for InstallContext {
    type V = ContextView;

    open spec fn view(&self) -> ContextView {
        ContextView {
            root_device: self.root_device@,
            efi_device: self.efi_device@,
            fs_type: self.fs_type,
            btrfs_layout: self.btrfs_layout,
            volume_mgr: self.volume_mgr,
        }
    }
}

/// `Path::join` on `/mnt`: an absolute `relative` replaces the base,
/// anything else is appended after a `/`.
pub open spec fn target_join(relative: Seq<char>) -> Seq<char> {
    if relative.len() > 0 && relative[0] == '/' {
        relative
    } else {
        "/mnt/"@ + relative
    }
}

impl InstallContext {
    /// Resolve a path relative to the target root:
    /// `ctx.target_path("etc/hostname")` gives `"/mnt/etc/hostname"`.
    pub fn target_path(&self, relative: &str) -> (r: String)
        ensures
            r@ == target_join(relative@),
    {
        resolve_in_target(relative)
    }
}

/// [`InstallContext::target_path`], for callers without a context.
pub fn resolve_in_target(relative: &str) -> (r: String)
    ensures
        r@ == target_join(relative@),
{
    if relative.unicode_len() > 0 && relative.get_char(0) == '/' {
        String::from_str(relative)
    } else {
        crate::text::cat("/mnt/", relative)
    }
}

} // verus!
