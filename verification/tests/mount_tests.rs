use void_bootstrap::context::InstallContext;
use void_bootstrap::error::InstallError;
use void_bootstrap::interact::Ask;
use void_bootstrap::stage::mount::{run, MountAction, MountEvent, MountStage, MountStep};
use void_bootstrap::types::{BtrfsLayout, FsType, VolumeManager};
use void_bootstrap::ui::Level;
use void_bootstrap::util::command::Cmd;

fn ctx() -> InstallContext {
    InstallContext {
        root_device: "/dev/sda2".to_string(),
        efi_device: "/dev/sda1".to_string(),
        fs_type: FsType::Btrfs,
        btrfs_layout: Some(BtrfsLayout::Full),
        volume_mgr: VolumeManager::Standard,
    }
}

fn argv(c: &Cmd) -> Vec<&str> {
    let mut v = vec![c.program.as_str()];
    v.extend(c.args.iter().map(|a| a.as_str()));
    v
}

fn notes(step: &MountStep) -> Vec<(Level, &str)> {
    step.notes.iter().map(|n| (n.level, n.text.as_str())).collect()
}

fn prompt(a: &MountAction) -> &str {
    match a {
        MountAction::Ask(Ask::Confirm { prompt, default: true }) => prompt.as_str(),
        other => panic!("expected a confirmation, got {other:?}"),
    }
}

#[test]
fn mount_stage_free_target_no_efivars() {
    let c = ctx();
    let (s, step) = run(&c, MountStage::Start, MountEvent::Start);
    match &step.action {
        MountAction::Query(q) => assert_eq!(argv(q), vec!["findmnt", "-M", "/mnt"]),
        other => panic!("{other:?}"),
    }
    let (s, step) = run(&c, s, MountEvent::Output(Err("not mounted".to_string())));
    match &step.action {
        MountAction::Mount(plan) => {
            assert_eq!(plan.root_note, "Mounting /dev/sda2 at /mnt...");
            assert_eq!(plan.subvolumes[0].note, "Mounting subvol @home at /mnt/home...");
            assert_eq!(plan.efi.note, "Mounting /dev/sda1 at /mnt/boot/efi...");
        }
        other => panic!("{other:?}"),
    }
    let (s, step) = run(&c, s, MountEvent::Done);
    match &step.action {
        MountAction::Exists(p) => assert_eq!(p, "/mnt/boot/efi/EFI/Void"),
        other => panic!("{other:?}"),
    }
    let (s, step) = run(&c, s, MountEvent::Exists(false));
    match &step.action {
        MountAction::Exists(p) => assert_eq!(p, "/sys/firmware/efi/efivars"),
        other => panic!("{other:?}"),
    }
    let (s, step) = run(&c, s, MountEvent::Exists(false));
    assert!(matches!(step.action, MountAction::Finish));
    assert_eq!(notes(&step), vec![(Level::Success, "Partitions mounted.")]);
    assert!(matches!(s, MountStage::Over));
}

#[test]
fn mount_stage_unmount_flow() {
    let c = ctx();
    let (s, _) = run(&c, MountStage::Start, MountEvent::Start);
    let (s, step) = run(&c, s, MountEvent::Output(Ok("/mnt /dev/sda2 ext4 rw\n".to_string())));
    assert_eq!(
        prompt(&step.action),
        "/mnt is already mounted (likely from a previous run). Auto-unmount it now?"
    );
    // Declining fails the stage.
    let (_, declined) = run(&c, MountStage::UnmountAsked, MountEvent::Answer(false));
    assert!(matches!(declined.action, MountAction::Fail(InstallError::TargetMounted)));
    let (s, step) = run(&c, s, MountEvent::Answer(true));
    assert_eq!(notes(&step), vec![(Level::Status, "Unmounting lingering partitions...")]);
    match &step.action {
        MountAction::RunIgnoringFailure(u) => assert_eq!(argv(u), vec!["umount", "-R", "/mnt"]),
        other => panic!("{other:?}"),
    }
    let (s, step) = run(&c, s, MountEvent::Done);
    assert!(matches!(step.action, MountAction::Query(_)));
    // Still mounted: the stage fails.
    let (_, stuck) = run(&c, MountStage::Reprobing, MountEvent::Output(Ok(String::new())));
    assert!(matches!(stuck.action, MountAction::Fail(InstallError::UnmountIncomplete)));
    let (_, step) = run(&c, s, MountEvent::Output(Err(String::new())));
    assert!(matches!(step.action, MountAction::Mount(_)));
}

#[test]
fn mount_stage_efi_cleanup() {
    let c = ctx();
    let (s, step) = run(&c, MountStage::VoidDirChecking, MountEvent::Exists(true));
    assert_eq!(
        prompt(&step.action),
        "Detected existing Void Linux bootloader files in the EFI partition. Remove them to ensure a clean install?"
    );
    let (s, step) = run(&c, s, MountEvent::Answer(true));
    assert_eq!(notes(&step), vec![(Level::Status, "Cleaning up old EFI/Void directory...")]);
    match &step.action {
        MountAction::RemoveDir { path, failure_context } => {
            assert_eq!(path, "/mnt/boot/efi/EFI/Void");
            assert_eq!(failure_context, "Failed to remove old EFI directory");
        }
        other => panic!("{other:?}"),
    }
    let (s, _) = run(&c, s, MountEvent::Done);
    let (s, step) = run(&c, s, MountEvent::Exists(true));
    match &step.action {
        MountAction::Query(q) => assert_eq!(argv(q), vec!["efibootmgr"]),
        other => panic!("{other:?}"),
    }
    let listing = "BootCurrent: 0001\nBoot0000* Windows Boot Manager\nBoot0003* Void\tHD(1)\nBoot1* Void\n";
    let (s, step) = run(&c, s, MountEvent::Output(Ok(listing.to_string())));
    assert_eq!(
        notes(&step),
        vec![
            (Level::Info, "Found the following stale 'Void' entries in the UEFI boot menu:"),
            (Level::Info, "  Boot0003* Void\tHD(1)"),
            (Level::Info, "  Boot1* Void"),
        ]
    );
    assert_eq!(
        prompt(&step.action),
        "Remove these specific 'Void' entries from the motherboard UEFI boot menu?"
    );
    let (s, step) = run(&c, s, MountEvent::Answer(true));
    assert_eq!(notes(&step), vec![(Level::Status, "Removing NVRAM entry 0003...")]);
    match &step.action {
        MountAction::RunIgnoringFailure(d) => {
            assert_eq!(argv(d), vec!["efibootmgr", "-b", "0003", "-B", "-q"])
        }
        other => panic!("{other:?}"),
    }
    // The second entry is too short for a boot number: passed over.
    let (s, step) = run(&c, s, MountEvent::Done);
    assert!(matches!(step.action, MountAction::Finish));
    assert!(matches!(s, MountStage::Over));
}

#[test]
fn mount_stage_declines_and_failures() {
    let c = ctx();
    let (_, step) = run(&c, MountStage::VoidDirAsked, MountEvent::Answer(false));
    assert!(matches!(step.action, MountAction::Exists(ref p) if p == "/sys/firmware/efi/efivars"));
    let (_, step) = run(
        &c,
        MountStage::StaleAsked(vec!["Boot0003* Void".to_string()]),
        MountEvent::Answer(false),
    );
    assert!(matches!(step.action, MountAction::Finish));
    let (_, step) = run(&c, MountStage::Listing, MountEvent::Output(Ok("Boot0000* Windows\n".to_string())));
    assert!(matches!(step.action, MountAction::Finish));
    let (_, step) = run(&c, MountStage::Mounting, MountEvent::Failed("mount: bad".to_string()));
    assert!(matches!(step.action, MountAction::Fail(InstallError::CommandFailed(ref m)) if m == "mount: bad"));
    let (_, step) = run(&c, MountStage::Start, MountEvent::Done);
    assert!(matches!(step.action, MountAction::Fail(InstallError::UnexpectedEvent)));
    // A boot number that would split a character stops the process.
    let (_, step) = run(
        &c,
        MountStage::StaleAsked(vec!["Boot000é* Void".to_string()]),
        MountEvent::Answer(true),
    );
    assert!(matches!(step.action, MountAction::Abort(ref e) if e == "Boot000é* Void"));
}
