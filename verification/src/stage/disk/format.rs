//! Formatting the root device and the EFI partition.

use vstd::prelude::*;
use crate::types::FsType;
use crate::util::command::Cmd;

verus! {

/// The `mkfs` invocation that formats `device` with `fs`.
pub open spec fn mkfs_for(device: Seq<char>, fs: FsType) -> (Seq<char>, Seq<Seq<char>>) {
    match fs {
        FsType::Ext4 => ("mkfs.ext4"@, seq!["-F"@, device]),
        FsType::Xfs => ("mkfs.xfs"@, seq!["-f"@, device]),
        FsType::Btrfs => ("mkfs.btrfs"@, seq!["-f"@, device]),
    }
}

/// Format the root device with the chosen filesystem, once the user agreed
/// (`proceed`); nothing when they declined (the device is assumed to be
/// formatted already).
pub fn format_root(device: &str, fs_type: FsType, proceed: bool) -> (r: Option<Cmd>)
    ensures
        r is Some <==> proceed,
        r matches Some(c) ==> c@ == mkfs_for(device@, fs_type),
{
    if !proceed {
        return None;
    }
    Some(mkfs_command(device, fs_type))
}

/// The `mkfs` invocation that formats `device` with `fs_type`.
pub fn mkfs_command(device: &str, fs_type: FsType) -> (r: Cmd)
    ensures
        r@ == mkfs_for(device@, fs_type),
{
    let c = match fs_type {
        FsType::Ext4 => Cmd::new("mkfs.ext4", &["-F", device]),
        FsType::Xfs => Cmd::new("mkfs.xfs", &["-f", device]),
        FsType::Btrfs => Cmd::new("mkfs.btrfs", &["-f", device]),
    };
    assert(c@.1 =~= mkfs_for(device@, fs_type).1);
    c
}

/// Format a partition as FAT32 for the EFI System Partition.
pub fn format_efi(device: &str) -> (r: Cmd)
    ensures
        r@ == ("mkfs.fat"@, seq!["-F32"@, device@]),
{
    let c = Cmd::new("mkfs.fat", &["-F32", device]);
    assert(c@.1 =~= seq!["-F32"@, device@]);
    c
}

} // verus!
