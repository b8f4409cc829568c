use std::path::PathBuf;
use void_bootstrap::context::InstallContext;
use void_bootstrap::types::{FsType, VolumeManager};

fn dummy_ctx() -> InstallContext {
    InstallContext {
        root_device: String::new(),
        efi_device: String::new(),
        fs_type: FsType::Ext4,
        btrfs_layout: None,
        volume_mgr: VolumeManager::Standard,
    }
}

#[test]
fn target_path_joins_correctly() {
    let ctx = dummy_ctx();
    assert_eq!(
        PathBuf::from(ctx.target_path("etc/hostname")),
        PathBuf::from("/mnt/etc/hostname")
    );
    assert_eq!(PathBuf::from(ctx.target_path("boot/efi")), PathBuf::from("/mnt/boot/efi"));
}

#[test]
fn target_path_matches_path_join() {
    let ctx = dummy_ctx();
    for rel in ["etc/fstab", "", "/etc/absolute", "var/db/xbps/keys"] {
        assert_eq!(
            PathBuf::from(ctx.target_path(rel)),
            PathBuf::from("/mnt").join(rel)
        );
    }
    assert_eq!(ctx.target_path("/abs"), "/abs");
}
