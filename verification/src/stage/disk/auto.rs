//! Automated partitioning of a whole disk with `sgdisk`.

use vstd::prelude::*;
use crate::error::InstallError;
use crate::text::{ascii_digit, cat3, decimal, decimal_string, is_ascii_digit};
use crate::util::command::Cmd;

verus! {

/// The device path of partition `num` of `disk`: NVMe and mmcblk disks
/// (whose names end in a digit) use a `p` separator.
pub open spec fn partition_name(disk: Seq<char>, num: nat) -> Seq<char> {
    if disk.len() > 0 && is_ascii_digit(disk.last()) {
        disk + "p"@ + decimal(num)
    } else {
        disk + decimal(num)
    }
}

/// Derive partition device paths from a whole-disk path:
/// `/dev/nvme0n1` and 1 give `/dev/nvme0n1p1`, `/dev/sda` and 1 give `/dev/sda1`.
pub fn partition_path(disk: &str, num: u32) -> (r: String)
    ensures
        r@ == partition_name(disk@, num as nat),
{
    let n = disk.unicode_len();
    let digits = decimal_string(num as u64);
    if n > 0 && ascii_digit(disk.get_char(n - 1)) {
        cat3(disk, "p", digits.as_str())
    } else {
        crate::text::cat(disk, digits.as_str())
    }
}

/// Result of automatic disk partitioning.
pub struct AutoResult {
    /// The EFI partition created (`None` when the user supplied an existing one).
    pub efi_part: Option<String>,
    /// The Linux partition (or PV partition when using LVM).
    pub linux_part: String,
}

/// The commands of automated partitioning, to run in order, and the
/// partitions they create.
pub struct AutoPlan {
    pub wipe: Cmd,
    pub create: Cmd,
    pub refresh: Cmd,
    pub show: Cmd,
    pub result: AutoResult,
}

pub open spec fn create_args(disk: Seq<char>, keep_efi: bool) -> Seq<Seq<char>> {
    if keep_efi {
        seq!["-n"@, "1:0:0"@, "-t"@, "1:8300"@, "-c"@, "1:Linux filesystem"@, disk]
    } else {
        seq![
            "-n"@,
            "1:0:+512M"@,
            "-t"@,
            "1:ef00"@,
            "-c"@,
            "1:EFI System"@,
            "-n"@,
            "2:0:0"@,
            "-t"@,
            "2:8300"@,
            "-c"@,
            "2:Linux filesystem"@,
            disk,
        ]
    }
}

/// Partition `disk` automatically, once the user agreed (`proceed`) to wipe
/// it. With an existing EFI partition the whole disk goes to Linux;
/// otherwise a 512 MiB EFI System Partition comes first.
pub fn run(disk: &str, existing_efi: Option<&str>, proceed: bool) -> (r: Result<AutoPlan, InstallError>)
    ensures
        !proceed <==> r matches Err(InstallError::PartitioningCancelled),
        r is Err ==> !proceed,
        r matches Ok(p) ==> {
            &&& p.wipe@ == ("sgdisk"@, seq!["--zap-all"@, disk@])
            &&& p.create@ == ("sgdisk"@, create_args(disk@, existing_efi is Some))
            &&& p.refresh@ == ("partprobe"@, seq![disk@])
            &&& p.show@ == ("lsblk"@, Seq::<Seq<char>>::empty())
            &&& if existing_efi is Some {
                &&& p.result.efi_part is None
                &&& p.result.linux_part@ == partition_name(disk@, 1)
            } else {
                &&& p.result.efi_part matches Some(e) && e@ == partition_name(disk@, 1)
                &&& p.result.linux_part@ == partition_name(disk@, 2)
            }
        },
{
    if !proceed {
        return Err(InstallError::PartitioningCancelled);
    }
    let wipe = Cmd::new("sgdisk", &["--zap-all", disk]);
    assert(wipe@.1 =~= seq!["--zap-all"@, disk@]);
    let (create, result) = if existing_efi.is_some() {
        let c = Cmd::new("sgdisk", &["-n", "1:0:0", "-t", "1:8300", "-c", "1:Linux filesystem", disk]);
        assert(c@.1 =~= create_args(disk@, true));
        (c, AutoResult { efi_part: None, linux_part: partition_path(disk, 1) })
    } else {
        let c = Cmd::new(
            "sgdisk",
            &[
                "-n",
                "1:0:+512M",
                "-t",
                "1:ef00",
                "-c",
                "1:EFI System",
                "-n",
                "2:0:0",
                "-t",
                "2:8300",
                "-c",
                "2:Linux filesystem",
                disk,
            ],
        );
        assert(c@.1 =~= create_args(disk@, false));
        (
            c,
            AutoResult {
                efi_part: Some(partition_path(disk, 1)),
                linux_part: partition_path(disk, 2),
            },
        )
    };
    let refresh = Cmd::new("partprobe", &[disk]);
    assert(refresh@.1 =~= seq![disk@]);
    let show = Cmd::new("lsblk", &[]);
    assert(show@.1 =~= Seq::<Seq<char>>::empty());
    Ok(AutoPlan { wipe, create, refresh, show, result })
}

/// On a fresh disk the EFI partition and the Linux partition are different
/// devices.
pub proof fn law_auto_partitions_distinct(disk: Seq<char>)
    ensures
        partition_name(disk, 1) != partition_name(disk, 2),
{
    let a = partition_name(disk, 1);
    let b = partition_name(disk, 2);
    assert(decimal(1) == seq!['1']);
    assert(decimal(2) == seq!['2']);
    assert(a.last() == '1');
    assert(b.last() == '2');
}

} // verus!
