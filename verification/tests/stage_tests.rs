use void_bootstrap::context::InstallContext;
use void_bootstrap::error::{InstallError, Probe};
use void_bootstrap::stage::configure::{
    configure_lvm_boot, enable_locale, generate_fstab, lvm_grub_defaults, root_device_id,
    root_uuid_query, system_files,
};
use void_bootstrap::stage::mount::{
    boot_number, boot_number_checkable, mount_btrfs_subvolumes, mount_plan, mount_root,
    stale_void_entries,
};
use void_bootstrap::stage::resume::{
    detect_btrfs_layout, findmnt_field, lvm_root_source, needs_subvolume_listing,
    reconstruct_context,
};
use void_bootstrap::stage::users::{set_password, PasswordNext};
use void_bootstrap::stage::{
    base_install, bootloader, completion_registered, repos, run_pipeline, run_stage,
    stage_heading, users, PipelineStep, StageKind, StageRunner,
};
use void_bootstrap::stage::chroot::chroot_plan;
use void_bootstrap::interact::Ask;
use void_bootstrap::types::{BtrfsLayout, FsType, GpuVendor, VolumeManager};
use void_bootstrap::ui::{Level, Ui};
use void_bootstrap::util::command::{block_device_uuid, run_chroot, Cmd};

fn argv(c: &Cmd) -> Vec<&str> {
    let mut v = vec![c.program.as_str()];
    v.extend(c.args.iter().map(|a| a.as_str()));
    v
}

fn ctx(fs: FsType, layout: Option<BtrfsLayout>, vm: VolumeManager, root: &str) -> InstallContext {
    InstallContext {
        root_device: root.to_string(),
        efi_device: "/dev/sda1".to_string(),
        fs_type: fs,
        btrfs_layout: layout,
        volume_mgr: vm,
    }
}

fn ok(s: &str) -> Result<String, String> {
    Ok(s.to_string())
}

#[test]
fn lvm_detection_by_vg_name() {
    // Devices under /dev/vg_void/ should be detected as LVM.
    assert!(lvm_root_source("/dev/vg_void/lv_root"));
}

#[test]
fn lvm_detection_other_devices() {
    assert!(lvm_root_source("/dev/vg_other/root"));
    assert!(!lvm_root_source("/dev/sda2"));
    assert!(!lvm_root_source("/dev/mapper/vg_void-lv_root"));
}

#[test]
fn run_chroot_prefixes_target() {
    assert_eq!(argv(&run_chroot(&["passwd", "bob"])), vec!["chroot", "/mnt", "passwd", "bob"]);
}

#[test]
fn blkid_output_is_trimmed() {
    assert_eq!(block_device_uuid(&ok("  ABCD-1234\n"), "/dev/sda1").unwrap(), "ABCD-1234");
    assert!(matches!(
        block_device_uuid(&ok(" \n"), "/dev/sda1"),
        Err(InstallError::MissingUuid(ref p)) if p == "/dev/sda1"
    ));
    assert!(matches!(
        block_device_uuid(&Err("no such device".to_string()), "/dev/sda1"),
        Err(InstallError::CommandFailed(ref m)) if m == "no such device"
    ));
}

#[test]
fn fstab_standard_ext4() {
    let c = ctx(FsType::Ext4, None, VolumeManager::Standard, "/dev/sda2");
    let fstab = generate_fstab(&c, &ok("EFI-UUID\n"), &ok("ROOT-UUID\n")).unwrap();
    assert_eq!(
        fstab,
        "UUID=ROOT-UUID / ext4 defaults 0 1\nUUID=EFI-UUID /boot/efi vfat defaults 0 0\n"
    );
}

#[test]
fn fstab_lvm_btrfs_full() {
    let c = ctx(FsType::Btrfs, Some(BtrfsLayout::Full), VolumeManager::Lvm, "/dev/vg_void/lv_root");
    let fstab = generate_fstab(&c, &ok("E1\n"), &Err("not asked".to_string())).unwrap();
    let expected = "\
/dev/vg_void/lv_root / btrfs defaults,compress=zstd,space_cache=v2,subvol=@ 0 0
/dev/vg_void/lv_root /home btrfs defaults,compress=zstd,space_cache=v2,subvol=@home 0 0
/dev/vg_void/lv_root /var/log btrfs defaults,compress=zstd,space_cache=v2,subvol=@log 0 0
/dev/vg_void/lv_root /var/cache btrfs defaults,compress=zstd,space_cache=v2,subvol=@cache 0 0
/dev/vg_void/lv_root /.snapshots btrfs defaults,compress=zstd,space_cache=v2,subvol=@snapshots 0 0
UUID=E1 /boot/efi vfat defaults 0 0
";
    assert_eq!(fstab, expected);
}

#[test]
fn fstab_errors_efi_first() {
    let c = ctx(FsType::Xfs, None, VolumeManager::Standard, "/dev/sda2");
    assert!(matches!(
        generate_fstab(&c, &ok(""), &ok("")),
        Err(InstallError::MissingUuid(ref p)) if p == "/dev/sda1"
    ));
    assert!(matches!(
        generate_fstab(&c, &ok("E"), &ok("")),
        Err(InstallError::MissingUuid(ref p)) if p == "/dev/sda2"
    ));
    assert_eq!(root_device_id(&c, &ok("R\n")).unwrap(), "UUID=R");
}

#[test]
fn locale_lines_uncommented() {
    let contents = "#en_US.UTF-8 UTF-8\n# en_GB.UTF-8 UTF-8\n#en_US ISO-8859-1\n";
    assert_eq!(
        enable_locale(contents, "en_US.UTF-8"),
        "en_US.UTF-8 UTF-8\n# en_GB.UTF-8 UTF-8\n#en_US ISO-8859-1\n"
    );
    assert_eq!(enable_locale("", "C"), "\n");
    assert_eq!(enable_locale("##  C\r\nx", "C"), "C\nx\n");
}

#[test]
fn grub_defaults_for_lvm() {
    assert_eq!(
        lvm_grub_defaults(None).unwrap(),
        "GRUB_CMDLINE_LINUX_DEFAULT=\"loglevel=4 rd.lvm.lv=vg_void/lv_root\"\n"
    );
    let existing = "GRUB_TIMEOUT=5\nGRUB_CMDLINE_LINUX_DEFAULT=\"loglevel=4\"\n";
    let updated = lvm_grub_defaults(Some(existing)).unwrap();
    assert_eq!(
        updated,
        "GRUB_TIMEOUT=5\nGRUB_CMDLINE_LINUX_DEFAULT=\"loglevel=4 rd.lvm.lv=vg_void/lv_root\"\n"
    );
    // Applying it again changes nothing.
    assert!(lvm_grub_defaults(Some(&updated)).is_none());
    let files = configure_lvm_boot(None);
    assert_eq!(files.dracut_path, "/mnt/etc/dracut.conf.d/lvm.conf");
    assert_eq!(files.grub_path, "/mnt/etc/default/grub");
    assert!(files.dracut_contents.contains("add_dracutmodules+=\" lvm \""));
}

#[test]
fn system_file_contents() {
    let f = system_files("voidlinux", "America/Phoenix", "en_US.UTF-8");
    assert_eq!(f.hostname_path, "/mnt/etc/hostname");
    assert_eq!(f.hostname_contents, "voidlinux\n");
    assert_eq!(
        argv(&f.localtime_link),
        vec!["chroot", "/mnt", "ln", "-sf", "/usr/share/zoneinfo/America/Phoenix", "/etc/localtime"]
    );
    assert_eq!(f.locale_conf_contents, "LANG=en_US.UTF-8\n");
    assert_eq!(f.fstab_path, "/mnt/etc/fstab");
}

#[test]
fn resume_reconstructs_btrfs_lvm() {
    let r = reconstruct_context(
        &ok("/dev/vg_void/lv_root\n"),
        &ok("btrfs\n"),
        &ok("/dev/sda1\n"),
        &ok("ID 256 gen 9 top level 5 path @\nID 257 gen 9 top level 5 path @home\n"),
    )
    .unwrap();
    assert_eq!(r.root_device, "/dev/vg_void/lv_root");
    assert_eq!(r.efi_device, "/dev/sda1");
    assert_eq!(r.fs_type, FsType::Btrfs);
    assert_eq!(r.btrfs_layout, Some(BtrfsLayout::Full));
    assert_eq!(r.volume_mgr, VolumeManager::Lvm);
}

#[test]
fn resume_errors_in_order() {
    let none = Err("findmnt failed".to_string());
    assert!(matches!(
        reconstruct_context(&none, &ok("ext4"), &ok("/dev/sda1"), &none),
        Err(InstallError::Cannot(Probe::RootDevice, _))
    ));
    assert!(matches!(
        reconstruct_context(&ok("/dev/sda2"), &ok("  "), &none, &none),
        Err(InstallError::Cannot(Probe::RootFsType, _))
    ));
    assert!(matches!(
        reconstruct_context(&ok("/dev/sda2"), &ok("zfs"), &none, &none),
        Err(InstallError::UnsupportedFilesystem(ref f)) if f == "zfs"
    ));
    assert!(matches!(
        reconstruct_context(&ok("/dev/sda2"), &ok("ext4"), &none, &none),
        Err(InstallError::Cannot(Probe::EfiDevice, _))
    ));
    let c = reconstruct_context(&ok("/dev/sda2"), &ok("xfs"), &ok("/dev/sda1"), &none).unwrap();
    assert_eq!(c.btrfs_layout, None);
    assert_eq!(c.volume_mgr, VolumeManager::Standard);
}

#[test]
fn findmnt_and_layout_detection() {
    assert!(matches!(
        findmnt_field(&ok("\n"), "/mnt", "SOURCE"),
        Err(InstallError::EmptyField { ref field, ref mountpoint }) if field == "SOURCE" && mountpoint == "/mnt"
    ));
    assert_eq!(findmnt_field(&ok(" /dev/sda2 \n"), "/mnt", "SOURCE").unwrap(), "/dev/sda2");
    assert_eq!(detect_btrfs_layout(&ok("path @\n")), Some(BtrfsLayout::Simple));
    assert_eq!(detect_btrfs_layout(&ok("path @snapshots\n")), Some(BtrfsLayout::Full));
    assert_eq!(detect_btrfs_layout(&Err("x".to_string())), None);
}

#[test]
fn mounting_plan() {
    let c = ctx(FsType::Btrfs, Some(BtrfsLayout::Full), VolumeManager::Standard, "/dev/sda2");
    let plan = mount_plan(&c);
    assert_eq!(
        argv(&plan.root),
        vec!["mount", "-o", "defaults,compress=zstd,space_cache=v2,subvol=@", "/dev/sda2", "/mnt"]
    );
    assert_eq!(plan.subvolumes.len(), 4);
    assert_eq!(plan.subvolumes[1].dir, "/mnt/var/log");
    assert_eq!(
        argv(&plan.subvolumes[1].cmd),
        vec!["mount", "-o", "defaults,compress=zstd,space_cache=v2,subvol=@log", "/dev/sda2", "/mnt/var/log"]
    );
    assert_eq!(argv(&plan.efi.cmd), vec!["mount", "/dev/sda1", "/mnt/boot/efi"]);
    assert_eq!(plan.void_efi_dir, "/mnt/boot/efi/EFI/Void");
    let plain = ctx(FsType::Ext4, None, VolumeManager::Standard, "/dev/sda2");
    assert_eq!(argv(&mount_root(&plain)), vec!["mount", "/dev/sda2", "/mnt"]);
}

#[test]
fn stale_boot_entries() {
    let out = "BootCurrent: 0001\nBoot0000* Windows Boot Manager\nBoot0003* Void\tHD(1)\nBoot0004  Void old\n";
    let entries = stale_void_entries(out);
    assert_eq!(entries, vec!["Boot0003* Void\tHD(1)", "Boot0004  Void old"]);
    assert!(boot_number_checkable(&entries[0]));
    assert_eq!(boot_number(&entries[0]).as_deref(), Some("0003"));
    assert_eq!(boot_number(&entries[1]).as_deref(), Some("0004"));
    assert_eq!(boot_number("Boot1*x"), None);
}

#[test]
fn grub_script_and_nvram() {
    let p = bootloader::run(true, true);
    assert!(p.update_nvram);
    assert!(p.script.contains(
        "grub-install --target=x86_64-efi --efi-directory=/boot/efi --bootloader-id=Void && \\\n"
    ));
    let q = bootloader::run(false, true);
    assert!(!q.update_nvram);
    assert!(q.script.contains("--bootloader-id=Void --no-nvram && \\\n"));
    assert!(q.script.starts_with("echo \"Generating device.map...\"\n"));
    assert!(q.script.ends_with("rm -f /boot/grub/device.map"));
}

#[test]
fn base_packages() {
    let p = base_install::run(FsType::Btrfs, GpuVendor::Nvidia);
    let install = argv(&p.install);
    assert_eq!(
        &install[..8],
        &["xbps-install", "-y", "-S", "-R", "https://repo-default.voidlinux.org/current", "-r", "/mnt", "--"]
    );
    assert_eq!(
        &install[8..],
        &["base-system", "grub-x86_64-efi", "linux-mainline", "NetworkManager", "glibc-locales", "efibootmgr", "btrfs-progs", "nvidia", "nvidia-libs"]
    );
    assert_eq!(argv(p.nonfree.as_ref().unwrap())[8], "void-repo-nonfree");
    assert_eq!(p.keys_target, "/mnt/var/db/xbps/keys");
    let q = base_install::run(FsType::Ext4, GpuVendor::NoGpu);
    assert!(q.nonfree.is_none());
    assert_eq!(argv(&q.install).len(), 14);
}

#[test]
fn users_and_repos() {
    let u = users::run("baobao");
    assert_eq!(
        argv(&u.add_user),
        vec!["chroot", "/mnt", "useradd", "-m", "-s", "/bin/bash", "-G", "wheel,audio,video,cdrom,input", "baobao"]
    );
    assert_eq!(argv(&u.user_password), vec!["chroot", "/mnt", "passwd", "baobao"]);
    assert_eq!(u.sudoers_mode, 0o440);
    match set_password(run_chroot(&["passwd", "bob"]), false) {
        PasswordNext::Retry { warning, again } => {
            assert_eq!(warning.level, Level::Warning);
            assert_eq!(warning.text, "Password was not set. Please try again.");
            assert_eq!(argv(&again), vec!["chroot", "/mnt", "passwd", "bob"]);
        }
        PasswordNext::Done => panic!("a failed attempt is retried"),
    }
    assert!(matches!(set_password(run_chroot(&["passwd"]), true), PasswordNext::Done));
    assert!(repos::run(false).is_none());
    let x = repos::run(true).unwrap();
    assert_eq!(x.conf_contents, "repository=https://github.com/xlibre-void/xlibre/releases/latest/download/\n");
    assert_eq!(argv(&x.install_wget), vec!["chroot", "/mnt", "xbps-install", "-y", "wget"]);
}

#[test]
fn pipeline_from_start_and_resumed() {
    let full = run_pipeline(0);
    assert_eq!(full.len(), 10);
    assert_eq!(full[1], PipelineStep::Disk { step: 1, resuming: false });
    assert!(full.iter().all(|s| !matches!(s, PipelineStep::Stage { skip: true, .. })));
    let resumed = run_pipeline(5);
    assert_eq!(resumed[1], PipelineStep::Disk { step: 1, resuming: true });
    assert_eq!(resumed[2], PipelineStep::Stage { step: 2, kind: StageKind::Mount, skip: true });
    assert_eq!(resumed[4], PipelineStep::Chroot { step: 4, reentering: true });
    assert_eq!(resumed[5], PipelineStep::Stage { step: 5, kind: StageKind::Configure, skip: false });
    assert_eq!(resumed[9], PipelineStep::Completion { from_bootloader: true });
    assert_eq!(full[9], PipelineStep::Completion { from_bootloader: true });
    assert_eq!(run_pipeline(7)[9], PipelineStep::Completion { from_bootloader: false });
    assert_eq!(run_pipeline(6)[9], PipelineStep::Completion { from_bootloader: true });
    assert!(completion_registered(true, true));
    assert!(!completion_registered(false, true));
    assert!(!completion_registered(true, false));
    let mut r = StageRunner::new(3);
    assert!(r.run_or_skip());
    assert!(r.run_or_skip());
    assert!(!r.run_or_skip());
    assert_eq!(r.step, 3);
    assert_eq!(stage_heading("Mounting Partitions", true), "Mounting Partitions [skipped — resuming]");
}

#[test]
fn ui_lines() {
    let plain = Ui::new(true, true, None);
    assert!(!plain.color);
    assert_eq!(plain.line(Level::Info, "hi"), " -> hi");
    assert_eq!(plain.line(Level::Status, "hi"), " >> hi");
    assert_eq!(plain.step_line(12, "Disk Setup"), "==> [12] Disk Setup");
    let color = Ui::new(true, false, Some("xterm"));
    assert!(color.color);
    assert_eq!(color.ansi("1;31", "x"), "\x1b[1;31mx\x1b[0m");
    assert_eq!(color.line(Level::Warning, "w"), "\x1b[1;33m !!\x1b[0m w");
    assert!(!Ui::new(true, false, Some("dumb")).color);
    assert!(!Ui::new(false, false, None).color);
}

#[test]
fn fstab_entries_follow_subvolume_mounts() {
    let c = ctx(FsType::Btrfs, Some(BtrfsLayout::Full), VolumeManager::Standard, "/dev/sda2");
    let fstab = generate_fstab(&c, &ok("E\n"), &ok("R\n")).unwrap();
    let lines: Vec<&str> = fstab.lines().collect();
    let mounts = mount_btrfs_subvolumes(&c, BtrfsLayout::Full);
    // Root first, EFI last, one entry per subvolume mount in between.
    assert_eq!(lines.len(), mounts.len() + 2);
    for (i, m) in mounts.iter().enumerate() {
        let mp = m.dir.strip_prefix("/mnt").unwrap();
        assert_eq!(m.cmd.args[3], m.dir);
        assert_eq!(lines[i + 1], format!("UUID=R {} btrfs {} 0 0", mp, m.cmd.args[1]));
    }
}

#[test]
fn resume_reads_back_simple_btrfs() {
    let c = ctx(FsType::Btrfs, Some(BtrfsLayout::Simple), VolumeManager::Standard, "/dev/nvme0n1p2");
    let r = reconstruct_context(
        &ok("/dev/nvme0n1p2\n"),
        &ok("btrfs\n"),
        &ok("/dev/sda1\n"),
        &ok("ID 256 gen 7 top level 5 path @\n"),
    )
    .unwrap();
    assert_eq!(r.root_device, c.root_device);
    assert_eq!(r.efi_device, c.efi_device);
    assert_eq!(r.fs_type, c.fs_type);
    assert_eq!(r.btrfs_layout, c.btrfs_layout);
    assert_eq!(r.volume_mgr, c.volume_mgr);
}

#[test]
fn banner_and_completion_text() {
    let plain = Ui::new(false, false, None);
    assert_eq!(
        plain.banner(),
        vec![
            "========================================",
            "  Void Linux Automated Bootstrap (TTY)",
            "========================================",
        ]
    );
    let done = plain.completion(true);
    assert_eq!(done.len(), 10);
    assert_eq!(done[4], " >> Void Linux has been registered in your UEFI boot menu.");
    assert_eq!(done[8], "    umount -R /mnt && reboot");
    let manual = plain.completion(false);
    assert_eq!(manual.len(), 19);
    assert_eq!(manual[5], " !! CRITICAL NEXT STEPS FOR DUAL/MULTI-BOOT");
    assert_eq!(manual[12], "       efibootmgr --create --disk /dev/sdX --part N \\");
    assert_eq!(manual[13], "         --label 'Void Linux' --loader '\\EFI\\Void\\grubx64.efi'\n");
    assert!(!manual.iter().any(|l| l.contains("registered in your UEFI")));
    let color = Ui::new(true, false, None);
    assert_eq!(color.completion(true)[1], "\x1b[1;32m========================================\x1b[0m");
    assert_eq!(color.destructive_line("Wipe?"), "\x1b[1;31m !!\x1b[0m \x1b[1;31mWipe?\x1b[0m");
}

#[test]
fn grub_parameter_goes_inside_an_empty_value() {
    let updated = lvm_grub_defaults(Some("GRUB_CMDLINE_LINUX_DEFAULT=\"\"\n")).unwrap();
    assert_eq!(updated, "GRUB_CMDLINE_LINUX_DEFAULT=\" rd.lvm.lv=vg_void/lv_root\"\n");
    let unquoted = lvm_grub_defaults(Some("GRUB_CMDLINE_LINUX_DEFAULT=quiet\n")).unwrap();
    assert_eq!(unquoted, "GRUB_CMDLINE_LINUX_DEFAULT=quiet rd.lvm.lv=vg_void/lv_root\"\n");
}

#[test]
fn stage_bodies_and_failures() {
    let mut calls = 0;
    let skipped: Result<bool, String> = run_stage("Installing GRUB Bootloader", true, false, || {
        calls += 1;
        Ok(true)
    });
    assert_eq!(skipped, Ok(false));
    assert_eq!(calls, 0);
    let ran: Result<bool, String> = run_stage("Installing GRUB Bootloader", false, false, || {
        calls += 1;
        Ok(true)
    });
    assert_eq!(ran, Ok(true));
    assert_eq!(calls, 1);
    let failed: Result<(), String> =
        run_stage("Mounting Partitions", false, (), || Err("mount: no device".to_string()));
    assert_eq!(failed, Err("Stage 'Mounting Partitions' failed: mount: no device".to_string()));
}

#[test]
fn registration_asked_only_with_efi_variables() {
    let with = bootloader::registration(true);
    assert!(with.notes.is_empty());
    assert!(matches!(with.ask, Some(Ask::Confirm { default: true, .. })));
    let without = bootloader::registration(false);
    assert!(without.ask.is_none());
    assert_eq!(without.notes.len(), 3);
    assert_eq!(without.notes[0].level, Level::Warning);
    assert_eq!(without.notes[0].text, "/sys/firmware/efi/efivars not found.");
}

#[test]
fn chroot_binds_and_teardown() {
    let p = chroot_plan();
    let binds: Vec<Vec<&str>> = p.binds.iter().map(argv).collect();
    assert_eq!(binds.len(), 8);
    assert_eq!(binds[0], vec!["mount", "--rbind", "/dev", "/mnt/dev"]);
    assert_eq!(binds[1], vec!["mount", "--make-rslave", "/mnt/dev"]);
    assert_eq!(binds[7], vec!["mount", "--make-rslave", "/mnt/run"]);
    let down: Vec<Vec<&str>> = p.teardown.iter().map(argv).collect();
    assert_eq!(down[0], vec!["umount", "-R", "/mnt/run"]);
    assert_eq!(down[3], vec!["umount", "-R", "/mnt/dev"]);
    assert_eq!(p.resolv_target, "/mnt/etc/resolv.conf");
}

#[test]
fn probes_only_where_needed() {
    let lvm = ctx(FsType::Ext4, None, VolumeManager::Lvm, "/dev/vg_void/lv_root");
    assert!(root_uuid_query(&lvm).is_none());
    let std_root = ctx(FsType::Ext4, None, VolumeManager::Standard, "/dev/sda2");
    assert_eq!(
        argv(&root_uuid_query(&std_root).unwrap()),
        vec!["blkid", "-s", "UUID", "-o", "value", "/dev/sda2"]
    );
    assert!(needs_subvolume_listing(&ok("btrfs\n")));
    assert!(!needs_subvolume_listing(&ok("ext4\n")));
    assert!(!needs_subvolume_listing(&Err("x".to_string())));
}
