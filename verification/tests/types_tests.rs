use void_bootstrap::types::{BtrfsLayout, FsType, GpuVendor, PartitionStrategy, VolumeManager};

#[test]
fn fs_type_display_matches_as_str() {
    for fs in [FsType::Ext4, FsType::Btrfs, FsType::Xfs] {
        assert_eq!(fs.to_string(), fs.as_str());
    }
}

#[test]
fn fs_type_round_trips_through_fromstr() {
    for label in FsType::select_options() {
        let parsed: FsType = label.parse().unwrap();
        assert_eq!(parsed.to_string(), label);
    }
}

#[test]
fn fs_type_fromstr_rejects_unknown() {
    assert!("zfs".parse::<FsType>().is_err());
}

#[test]
fn btrfs_has_distinct_mount_opts() {
    assert_ne!(FsType::Btrfs.mount_opts(), FsType::Ext4.mount_opts());
    assert!(FsType::Btrfs.mount_opts().contains("subvol=@"));
}

#[test]
fn btrfs_has_no_fsck_pass() {
    assert_eq!(FsType::Btrfs.fstab_dump_pass(), "0 0");
    assert_eq!(FsType::Ext4.fstab_dump_pass(), "0 1");
}

#[test]
fn gpu_vendor_round_trips_through_fromstr() {
    for label in GpuVendor::select_options() {
        let parsed: GpuVendor = label.parse().unwrap();
        assert_eq!(parsed.to_string(), label);
    }
}

#[test]
fn gpu_vendor_fromstr_rejects_unknown() {
    assert!("Qualcomm".parse::<GpuVendor>().is_err());
}

#[test]
fn nvidia_has_packages() {
    assert!(!GpuVendor::Nvidia.packages().is_empty());
}

#[test]
fn gpu_none_has_no_packages() {
    assert!(GpuVendor::NoGpu.packages().is_empty());
}

#[test]
fn partition_strategy_round_trips() {
    for label in PartitionStrategy::select_options() {
        let parsed: PartitionStrategy = label.parse().unwrap();
        assert_eq!(parsed.to_string(), label);
    }
}

#[test]
fn partition_strategy_rejects_unknown() {
    assert!("Magic".parse::<PartitionStrategy>().is_err());
}

#[test]
fn volume_manager_round_trips() {
    for label in VolumeManager::select_options() {
        let parsed: VolumeManager = label.parse().unwrap();
        assert_eq!(parsed.to_string(), label);
    }
}

#[test]
fn volume_manager_rejects_unknown() {
    assert!("ZFS".parse::<VolumeManager>().is_err());
}

#[test]
fn btrfs_layout_round_trips() {
    for label in BtrfsLayout::select_options() {
        let parsed: BtrfsLayout = label.parse().unwrap();
        assert_eq!(parsed.to_string(), label);
    }
}

#[test]
fn btrfs_layout_rejects_unknown() {
    assert!("Exotic".parse::<BtrfsLayout>().is_err());
}

#[test]
fn btrfs_simple_has_root_only() {
    let subvols = BtrfsLayout::Simple.subvolumes();
    assert_eq!(subvols.len(), 1);
    assert_eq!(subvols[0].name, "@");
}

#[test]
fn btrfs_full_has_multiple_subvols() {
    let subvols = BtrfsLayout::Full.subvolumes();
    assert!(subvols.len() > 1);
    assert_eq!(subvols[0].name, "@");
    assert!(subvols.iter().any(|sv| sv.name == "@home"));
    assert!(subvols.iter().any(|sv| sv.name == "@snapshots"));
}

// ── Further cases ───────────────────────────────────────────────

#[test]
fn parse_errors_quote_the_input() {
    assert_eq!(FsType::parse("zfs").unwrap_err(), "Unknown filesystem type: 'zfs'");
    assert_eq!(GpuVendor::parse("Qualcomm").unwrap_err(), "Unknown GPU vendor: 'Qualcomm'");
    assert_eq!(
        PartitionStrategy::parse("Magic").unwrap_err(),
        "Unknown partition strategy: 'Magic'"
    );
    assert_eq!(VolumeManager::parse("ZFS").unwrap_err(), "Unknown volume manager: 'ZFS'");
    assert_eq!(BtrfsLayout::parse("Exotic").unwrap_err(), "Unknown BTRFS layout: 'Exotic'");
}

#[test]
fn parsing_is_case_sensitive() {
    assert!(FsType::parse("EXT4").is_err());
    assert!(VolumeManager::parse("lvm").is_err());
    assert!(GpuVendor::parse("amd").is_err());
}

#[test]
fn labels_parse_back() {
    for fs in [FsType::Ext4, FsType::Btrfs, FsType::Xfs] {
        assert_eq!(FsType::parse(fs.as_str()), Ok(fs));
    }
    for g in [GpuVendor::Amd, GpuVendor::Intel, GpuVendor::Nvidia, GpuVendor::NoGpu] {
        assert_eq!(GpuVendor::parse(&g.to_string()), Ok(g));
    }
    assert_eq!(GpuVendor::NoGpu.to_string(), "None");
}

#[test]
fn mount_options_exact() {
    assert_eq!(
        FsType::Btrfs.mount_opts(),
        "defaults,compress=zstd,space_cache=v2,subvol=@"
    );
    assert_eq!(FsType::Xfs.mount_opts(), "defaults");
    assert_eq!(
        FsType::Btrfs.subvol_mount_opts("@home"),
        "defaults,compress=zstd,space_cache=v2,subvol=@home"
    );
    assert_eq!(FsType::Xfs.fstab_dump_pass(), "0 1");
}

#[test]
fn gpu_package_lists() {
    assert_eq!(
        GpuVendor::Amd.packages(),
        vec!["linux-firmware-amd", "mesa-dri", "mesa-vaapi", "mesa-vulkan-radeon"]
    );
    assert_eq!(
        GpuVendor::Intel.packages(),
        vec!["linux-firmware-intel", "mesa-dri", "mesa-vaapi", "intel-video-accel"]
    );
    assert_eq!(GpuVendor::Nvidia.packages(), vec!["nvidia", "nvidia-libs"]);
}

#[test]
fn full_layout_mountpoints() {
    let svs = BtrfsLayout::Full.subvolumes();
    let pairs: Vec<(&str, &str)> = svs.iter().map(|s| (s.name, s.mountpoint)).collect();
    assert_eq!(
        pairs,
        vec![
            ("@", ""),
            ("@home", "home"),
            ("@log", "var/log"),
            ("@cache", "var/cache"),
            ("@snapshots", ".snapshots"),
        ]
    );
}
