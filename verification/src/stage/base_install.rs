//! Installing the base system with XBPS.

use vstd::prelude::*;
use crate::context::{resolve_in_target, target_join, TARGET};
use crate::text::{str_views, string_views};
use crate::types::{FsType, GpuVendor, XBPS_REPO};
use crate::util::command::{owned_all, Cmd};

verus! {

/// The packages of the base system for a root filesystem `fs`, before the
/// GPU drivers.
pub open spec fn base_packages(fs: FsType) -> Seq<Seq<char>> {
    seq![
        "base-system"@,
        "grub-x86_64-efi"@,
        "linux-mainline"@,
        "NetworkManager"@,
        "glibc-locales"@,
        "efibootmgr"@,
    ] + if fs == FsType::Btrfs {
        seq!["btrfs-progs"@]
    } else {
        seq![]
    }
}

/// `xbps-install` into the target from the default repository.
pub open spec fn xbps_install(packages: Seq<Seq<char>>) -> (Seq<char>, Seq<Seq<char>>) {
    ("xbps-install"@, seq!["-y"@, "-S"@, "-R"@, XBPS_REPO@, "-r"@, TARGET@, "--"@] + packages)
}

/// What the base installation does, in order.
pub struct BaseInstallPlan {
    /// The host's repository keys are copied into this target directory.
    pub keys_source: String,
    pub keys_target: String,
    /// The non-free repository, installed first for NVIDIA.
    pub nonfree: Option<Cmd>,
    /// The base system and the GPU driver packages.
    pub install: Cmd,
}

fn xbps_install_cmd(packages: &Vec<&str>) -> (r: Cmd)
    ensures
        r@ == xbps_install(str_views(packages@)),
{
    let mut args = owned_all(&["-y", "-S", "-R", XBPS_REPO, "-r", TARGET, "--"]);
    let mut rest = owned_all(packages.as_slice());
    let ghost a = args@;
    let ghost b = rest@;
    args.append(&mut rest);
    proof {
        assert(args@ == a + b);
        assert(string_views(args@) =~= string_views(a) + string_views(b));
        assert(string_views(args@) =~= seq![
            "-y"@,
            "-S"@,
            "-R"@,
            XBPS_REPO@,
            "-r"@,
            TARGET@,
            "--"@,
        ] + str_views(packages@));
    }
    Cmd { program: String::from_str("xbps-install"), args }
}

/// Install the base system onto a target with root filesystem `fs_type`
/// and GPU drivers for `gpu`.
pub fn run(fs_type: FsType, gpu: GpuVendor) -> (r: BaseInstallPlan)
    ensures
        r.keys_source@ == "/var/db/xbps/keys"@,
        r.keys_target@ == target_join("var/db/xbps/keys"@),
        r.nonfree is Some <==> gpu == GpuVendor::Nvidia,
        r.nonfree matches Some(c) ==> c@ == xbps_install(seq!["void-repo-nonfree"@]),
        r.install@ == xbps_install(base_packages(fs_type) + gpu.driver_packages()),
{
    let mut packages: Vec<&str> = vec![
        "base-system",
        "grub-x86_64-efi",
        "linux-mainline",
        "NetworkManager",
        "glibc-locales",
        "efibootmgr",
    ];
    if fs_type == FsType::Btrfs {
        packages.push("btrfs-progs");
    }
    assert(str_views(packages@) =~= base_packages(fs_type));
    let nonfree = if gpu == GpuVendor::Nvidia {
        let v: Vec<&str> = vec!["void-repo-nonfree"];
        assert(str_views(v@) =~= seq!["void-repo-nonfree"@]);
        Some(xbps_install_cmd(&v))
    } else {
        None
    };
    let mut drivers = gpu.packages();
    let ghost p0 = packages@;
    packages.append(&mut drivers);
    assert(str_views(packages@) =~= base_packages(fs_type) + gpu.driver_packages());
    BaseInstallPlan {
        keys_source: String::from_str("/var/db/xbps/keys"),
        keys_target: resolve_in_target("var/db/xbps/keys"),
        nonfree,
        install: xbps_install_cmd(&packages),
    }
}

} // verus!
