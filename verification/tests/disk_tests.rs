use void_bootstrap::error::InstallError;
use void_bootstrap::interact::{Action, Ask, Event};
use void_bootstrap::stage::disk::auto::partition_path;
use void_bootstrap::stage::disk::btrfs::create_subvolumes;
use void_bootstrap::stage::disk::format::{format_efi, format_root};
use void_bootstrap::stage::disk::lvm;
use void_bootstrap::stage::disk::{run, DiskSetup};
use void_bootstrap::types::{BtrfsLayout, FsType, VolumeManager};
use void_bootstrap::util::command::Cmd;

#[test]
fn partition_path_sata() {
    assert_eq!(partition_path("/dev/sda", 1), "/dev/sda1");
    assert_eq!(partition_path("/dev/sdb", 3), "/dev/sdb3");
}

#[test]
fn partition_path_nvme() {
    assert_eq!(partition_path("/dev/nvme0n1", 1), "/dev/nvme0n1p1");
    assert_eq!(partition_path("/dev/nvme0n1", 2), "/dev/nvme0n1p2");
}

#[test]
fn partition_path_mmcblk() {
    assert_eq!(partition_path("/dev/mmcblk0", 1), "/dev/mmcblk0p1");
}

fn argv(c: &Cmd) -> Vec<&str> {
    let mut v = vec![c.program.as_str()];
    v.extend(c.args.iter().map(|a| a.as_str()));
    v
}

#[test]
fn partition_path_multi_digit_numbers() {
    assert_eq!(partition_path("/dev/sda", 10), "/dev/sda10");
    assert_eq!(partition_path("/dev/nvme0n1", 128), "/dev/nvme0n1p128");
    assert_eq!(partition_path("/dev/vda", 0), "/dev/vda0");
    assert_eq!(partition_path("", 4), "4");
}

#[test]
fn auto_plan_fresh_disk() {
    let plan = void_bootstrap::stage::disk::auto::run("/dev/sda", None, true).ok().unwrap();
    assert_eq!(argv(&plan.wipe), vec!["sgdisk", "--zap-all", "/dev/sda"]);
    assert_eq!(
        argv(&plan.create),
        vec![
            "sgdisk", "-n", "1:0:+512M", "-t", "1:ef00", "-c", "1:EFI System", "-n", "2:0:0",
            "-t", "2:8300", "-c", "2:Linux filesystem", "/dev/sda"
        ]
    );
    assert_eq!(argv(&plan.refresh), vec!["partprobe", "/dev/sda"]);
    assert_eq!(argv(&plan.show), vec!["lsblk"]);
    assert_eq!(plan.result.efi_part.as_deref(), Some("/dev/sda1"));
    assert_eq!(plan.result.linux_part, "/dev/sda2");
}

#[test]
fn auto_plan_with_existing_efi() {
    let plan = void_bootstrap::stage::disk::auto::run("/dev/nvme1n1", Some("/dev/nvme0n1p1"), true).ok().unwrap();
    assert_eq!(
        argv(&plan.create),
        vec!["sgdisk", "-n", "1:0:0", "-t", "1:8300", "-c", "1:Linux filesystem", "/dev/nvme1n1"]
    );
    assert!(plan.result.efi_part.is_none());
    assert_eq!(plan.result.linux_part, "/dev/nvme1n1p1");
}

#[test]
fn auto_plan_cancelled() {
    assert!(matches!(
        void_bootstrap::stage::disk::auto::run("/dev/sda", None, false),
        Err(InstallError::PartitioningCancelled)
    ));
}

#[test]
fn format_commands() {
    assert_eq!(argv(&format_root("/dev/sda2", FsType::Ext4, true).unwrap()), vec!["mkfs.ext4", "-F", "/dev/sda2"]);
    assert_eq!(argv(&format_root("/dev/sda2", FsType::Xfs, true).unwrap()), vec!["mkfs.xfs", "-f", "/dev/sda2"]);
    assert_eq!(argv(&format_root("/dev/sda2", FsType::Btrfs, true).unwrap()), vec!["mkfs.btrfs", "-f", "/dev/sda2"]);
    assert!(format_root("/dev/sda2", FsType::Ext4, false).is_none());
    assert_eq!(argv(&format_efi("/dev/sda1")), vec!["mkfs.fat", "-F32", "/dev/sda1"]);
}

#[test]
fn lvm_setup_commands() {
    let plan = lvm::setup("/dev/sda2");
    assert_eq!(argv(&plan.pvcreate), vec!["pvcreate", "-f", "/dev/sda2"]);
    assert_eq!(argv(&plan.vgcreate), vec!["vgcreate", "vg_void", "/dev/sda2"]);
    assert_eq!(argv(&plan.lvcreate), vec!["lvcreate", "-l", "100%FREE", "-n", "lv_root", "vg_void"]);
    assert_eq!(plan.root_device, "/dev/vg_void/lv_root");
}

#[test]
fn subvolume_plan_full() {
    let plan = create_subvolumes("/dev/sda2", BtrfsLayout::Full);
    assert_eq!(argv(&plan.format.cmd), vec!["mkfs.btrfs", "-f", "/dev/sda2"]);
    assert_eq!(plan.format.note.as_ref().unwrap().text, "Formatting /dev/sda2 as btrfs...");
    assert_eq!(plan.announce, "Creating 5 BTRFS subvolume(s) on /dev/sda2...");
    assert_eq!(argv(&plan.mount), vec!["mount", "/dev/sda2", "/tmp/btrfs-setup"]);
    assert_eq!(argv(&plan.unmount), vec!["umount", "/tmp/btrfs-setup"]);
    let creates: Vec<Vec<&str>> = plan.creates.iter().map(|s| argv(&s.cmd)).collect();
    assert_eq!(creates[0], vec!["btrfs", "subvolume", "create", "/tmp/btrfs-setup/@"]);
    assert_eq!(creates[4], vec!["btrfs", "subvolume", "create", "/tmp/btrfs-setup/@snapshots"]);
    assert_eq!(plan.creates[1].note.as_ref().unwrap().text, "  subvolume: @home → /home");
}

// ── The disk setup dialogue ─────────────────────────────────────

fn step(state: DiskSetup, event: Event) -> (DiskSetup, Action) {
    let (s, st) = run(state, event);
    (s, st.action)
}

fn commands(a: &Action) -> Vec<Vec<String>> {
    match a {
        Action::Run(steps) => steps
            .iter()
            .map(|s| {
                let mut v = vec![s.cmd.program.clone()];
                v.extend(s.cmd.args.iter().cloned());
                v
            })
            .collect(),
        _ => panic!("expected commands, got {:?}", a),
    }
}

fn text(s: &str) -> Event {
    Event::Text(s.to_string())
}

#[test]
fn disk_setup_automated_fresh_disk_with_lvm_and_btrfs() {
    let (s, a) = step(DiskSetup::Start, Event::Start);
    assert_eq!(commands(&a), vec![vec!["lsblk".to_string()]]);
    let (s, a) = step(s, Event::Done);
    assert!(matches!(a, Action::Ask(Ask::Confirm { default: false, .. })));
    let (s, a) = step(s, Event::Answer(false));
    assert!(matches!(a, Action::Ask(Ask::Select { .. })));
    let (s, a) = step(s, text("Automated"));
    assert!(matches!(a, Action::Ask(Ask::BlockDevice { .. })));
    let (s, a) = step(s, text("/dev/sda"));
    match &a {
        Action::Ask(Ask::Destructive { warning, prompt }) => {
            assert_eq!(warning, "ALL DATA on /dev/sda will be permanently destroyed.");
            assert_eq!(prompt, "Wipe /dev/sda and create a new partition table?");
        }
        other => panic!("unexpected {:?}", other),
    }
    let (s, a) = step(s, Event::Answer(true));
    let cmds = commands(&a);
    assert_eq!(cmds[0], vec!["sgdisk", "--zap-all", "/dev/sda"]);
    assert_eq!(cmds[2], vec!["partprobe", "/dev/sda"]);
    let (s, a) = step(s, Event::Done);
    assert!(matches!(a, Action::Ask(Ask::Select { .. })));
    let (s, a) = step(s, text("LVM"));
    assert_eq!(commands(&a)[0], vec!["pvcreate", "-f", "/dev/sda2"]);
    let (s, st) = run(s, Event::Done);
    assert_eq!(st.notes[0].text, "LVM ready — root device: /dev/vg_void/lv_root");
    let (s, st) = run(s, text("btrfs"));
    assert_eq!(st.notes.len(), 5);
    let (s, a) = step(s, text("Full"));
    match &a {
        Action::Ask(Ask::Destructive { prompt, .. }) => {
            assert_eq!(prompt, "Format /dev/vg_void/lv_root as btrfs?")
        }
        other => panic!("unexpected {:?}", other),
    }
    let (s, a) = step(s, Event::Answer(true));
    assert_eq!(commands(&a), vec![vec!["mkfs.btrfs", "-f", "/dev/vg_void/lv_root"]]);
    let (s, a) = step(s, Event::Done);
    match &a {
        Action::Guarded { dir, steps, .. } => {
            assert_eq!(dir, "/tmp/btrfs-setup");
            assert_eq!(steps.len(), 5);
        }
        other => panic!("unexpected {:?}", other),
    }
    let (s, a) = step(s, Event::Done);
    assert_eq!(commands(&a), vec![vec!["mkfs.fat", "-F32", "/dev/sda1"]]);
    let (s, a) = step(s, Event::Done);
    match a {
        Action::Finish(ctx) => {
            assert_eq!(ctx.root_device, "/dev/vg_void/lv_root");
            assert_eq!(ctx.efi_device, "/dev/sda1");
            assert_eq!(ctx.fs_type, FsType::Btrfs);
            assert_eq!(ctx.btrfs_layout, Some(BtrfsLayout::Full));
            assert_eq!(ctx.volume_mgr, VolumeManager::Lvm);
        }
        other => panic!("unexpected {:?}", other),
    }
    assert!(matches!(s, DiskSetup::Over));
}

#[test]
fn disk_setup_manual_keeps_existing_efi_when_declined() {
    let (s, _) = step(DiskSetup::Start, Event::Start);
    let (s, _) = step(s, Event::Done);
    let (s, _) = step(s, Event::Answer(true));
    let (s, _) = step(s, text("/dev/nvme0n1p1"));
    let (s, a) = step(s, text("Manual"));
    assert!(matches!(a, Action::Ask(Ask::Confirm { .. })));
    let (s, a) = step(s, Event::Answer(false));
    match &a {
        Action::Ask(Ask::BlockDevice { prompt }) => {
            assert_eq!(prompt, "Enter the ROOT partition (e.g., /dev/nvme0n1p2):")
        }
        other => panic!("unexpected {:?}", other),
    }
    let (s, _) = step(s, text("/dev/nvme0n1p5"));
    let (s, _) = step(s, text("Standard"));
    let (s, _) = step(s, text("ext4"));
    let (s, st) = run(s, Event::Answer(false));
    assert_eq!(st.notes[0].text, "Skipping root format (assuming it is already formatted).");
    assert!(matches!(st.action, Action::Ask(Ask::Destructive { .. })));
    let (_, st) = run(s, Event::Answer(false));
    assert_eq!(
        st.notes[0].text,
        "Skipping EFI format. Existing bootloaders will be preserved."
    );
    match st.action {
        Action::Finish(ctx) => {
            assert_eq!(ctx.root_device, "/dev/nvme0n1p5");
            assert_eq!(ctx.efi_device, "/dev/nvme0n1p1");
            assert_eq!(ctx.btrfs_layout, None);
            assert_eq!(ctx.volume_mgr, VolumeManager::Standard);
        }
        other => panic!("unexpected {:?}", other),
    }
}

#[test]
fn disk_setup_wipe_declined_is_an_error() {
    let (s, _) = step(DiskSetup::Start, Event::Start);
    let (s, _) = step(s, Event::Done);
    let (s, _) = step(s, Event::Answer(false));
    let (s, _) = step(s, text("Automated"));
    let (s, _) = step(s, text("/dev/sdb"));
    let (s, a) = step(s, Event::Answer(false));
    assert!(matches!(a, Action::Fail(InstallError::PartitioningCancelled)));
    assert!(matches!(s, DiskSetup::Over));
}

#[test]
fn disk_setup_failures_and_bad_input() {
    let (_, a) = step(DiskSetup::Start, Event::Failed("boom".to_string()));
    assert!(matches!(a, Action::Fail(InstallError::CommandFailed(ref m)) if m == "boom"));
    let (_, a) = step(DiskSetup::Start, Event::Done);
    assert!(matches!(a, Action::Fail(InstallError::UnexpectedEvent)));
    let (s, _) = step(DiskSetup::Start, Event::Start);
    let (s, _) = step(s, Event::Done);
    let (s, _) = step(s, Event::Answer(false));
    let (_, a) = step(s, text("Magic"));
    assert!(matches!(a, Action::Fail(InstallError::InvalidChoice(ref m)) if m == "Unknown partition strategy: 'Magic'"));
}

#[test]
fn disk_setup_manual_with_partitioner() {
    let (s, _) = step(DiskSetup::Start, Event::Start);
    let (s, _) = step(s, Event::Done);
    let (s, _) = step(s, Event::Answer(false));
    let (s, _) = step(s, text("Manual"));
    let (s, _) = step(s, Event::Answer(true));
    let (s, a) = step(s, text("/dev/sdc"));
    assert_eq!(commands(&a), vec![vec!["cfdisk".to_string(), "/dev/sdc".to_string()], vec!["lsblk".to_string()]]);
    let (s, _) = step(s, Event::Done);
    let (s, a) = step(s, text("/dev/sdc2"));
    match &a {
        Action::Ask(Ask::BlockDevice { prompt }) => {
            assert_eq!(prompt, "Enter the EFI partition (e.g., /dev/nvme0n1p1):")
        }
        other => panic!("unexpected {:?}", other),
    }
    let (s, _) = step(s, text("/dev/sdc1"));
    let (s, _) = step(s, text("Standard"));
    let (s, _) = step(s, text("xfs"));
    let (s, a) = step(s, Event::Answer(true));
    assert_eq!(commands(&a), vec![vec!["mkfs.xfs", "-f", "/dev/sdc2"]]);
    let (s, a) = step(s, Event::Done);
    // Not the user's own EFI partition: formatted without asking.
    assert_eq!(commands(&a), vec![vec!["mkfs.fat", "-F32", "/dev/sdc1"]]);
    let (_, a) = step(s, Event::Done);
    assert!(matches!(a, Action::Finish(_)));
}
