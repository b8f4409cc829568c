pub mod auto;
pub mod btrfs;
pub mod format;
pub mod lvm;
pub mod manual;

use vstd::prelude::*;
use crate::context::{ContextView, InstallContext};
use crate::error::{ErrorView, InstallError};
use crate::interact::{
    ask_confirm, ask_destructive, ask_device, ask_select, cmd_step, cmd_step_views, fail, note,
    note_views, one_note, quiet, status, step_of, Action, ActionView, AskView, CmdStep,
    CmdStepView, CmdView, Event, EventView, Note, Step,
};
use crate::text::{cat, cat3, decimal};
use crate::types::{
    unknown_message, BtrfsLayout, FsType, PartitionStrategy, VolumeManager, LV_ROOT, VG_NAME,
};
use crate::ui::Level;
use crate::util::command::Cmd;
use self::auto::{create_args, partition_name, partition_path};
use self::btrfs::{subvol_steps, subvolume_create, BTRFS_SETUP_DIR};
use self::format::mkfs_for;
use self::lvm::lv_path;

verus! {

// ── Texts ───────────────────────────────────────────────────────

pub open spec fn reuse_prompt() -> Seq<char> {
    "Do you have an existing EFI partition to reuse? (e.g., dual-booting with another OS)"@
}

pub open spec fn existing_efi_prompt() -> Seq<char> {
    "Enter the existing EFI partition (e.g., /dev/nvme0n1p1):"@
}

pub open spec fn strategy_prompt() -> Seq<char> {
    "Choose your partitioning strategy:"@
}

pub open spec fn auto_disk_prompt() -> Seq<char> {
    "Enter the target disk for automated partitioning (e.g., /dev/sda):"@
}

pub open spec fn partition_first_prompt() -> Seq<char> {
    "Do you need to partition a disk first? (e.g., for a new PC)"@
}

pub open spec fn partition_disk_prompt() -> Seq<char> {
    "Enter the disk to partition (e.g., /dev/nvme0n1 or /dev/sda):"@
}

pub open spec fn root_prompt() -> Seq<char> {
    "Enter the ROOT partition (e.g., /dev/nvme0n1p2):"@
}

pub open spec fn efi_prompt() -> Seq<char> {
    "Enter the EFI partition (e.g., /dev/nvme0n1p1):"@
}

pub open spec fn volume_prompt() -> Seq<char> {
    "Select volume management:"@
}

pub open spec fn fs_prompt() -> Seq<char> {
    "Root filesystem type:"@
}

pub open spec fn layout_prompt() -> Seq<char> {
    "Select BTRFS subvolume layout:"@
}

pub open spec fn root_format_warning() -> Seq<char> {
    "All data on this partition/volume will be permanently erased."@
}

pub open spec fn efi_format_warning() -> Seq<char> {
    "Formatting will destroy existing bootloaders on this EFI partition."@
}

// ── States ──────────────────────────────────────────────────────

/// The choices that decide the install context.
#[derive(Debug)]
pub struct Chosen {
    /// Whether the EFI partition is one the user brought.
    pub reuse_efi: bool,
    pub root: String,
    pub efi: String,
    pub vm: VolumeManager,
    pub fs: FsType,
    pub layout: Option<BtrfsLayout>,
}

pub struct ChosenView {
    pub reuse_efi: bool,
    pub root: Seq<char>,
    pub efi: Seq<char>,
    pub vm: VolumeManager,
    pub fs: FsType,
    pub layout: Option<BtrfsLayout>,
}

impl View for Chosen {
    type V = ChosenView;

    open spec fn view(&self) -> ChosenView {
        ChosenView {
            reuse_efi: self.reuse_efi,
            root: self.root@,
            efi: self.efi@,
            vm: self.vm,
            fs: self.fs,
            layout: self.layout,
        }
    }
}

/// Where the disk setup stage stands: which answer or outcome it waits for.
#[derive(Debug)]
pub enum DiskSetup {
    Start,
    LayoutShown,
    ReuseAsked,
    ExistingEfiAsked,
    /// With the existing EFI partition, if any.
    StrategyAsked(Option<String>),
    AutoDiskAsked(Option<String>),
    /// With the existing EFI partition and the disk to wipe.
    WipeAsked(Option<String>, String),
    /// Whether the EFI partition is the user's, the root and EFI partitions.
    AutoPartitioning(bool, String, String),
    PartitionerAsked(Option<String>),
    ManualDiskAsked(Option<String>),
    Partitioning(Option<String>),
    RootAsked(Option<String>),
    /// With the root partition.
    EfiAsked(String),
    VolumeAsked(bool, String, String),
    /// Whether the EFI partition is the user's, and the EFI partition.
    LvmCreating(bool, String),
    FsAsked(bool, String, String, VolumeManager),
    LayoutAsked(bool, String, String, VolumeManager),
    RootFormatAsked(Chosen),
    RootFormatting(Chosen),
    SubvolumesCreating(Chosen),
    EfiFormatAsked(Chosen),
    EfiFormatting(Chosen),
    Over,
}

pub enum DiskSetupView {
    Start,
    LayoutShown,
    ReuseAsked,
    ExistingEfiAsked,
    StrategyAsked(Option<Seq<char>>),
    AutoDiskAsked(Option<Seq<char>>),
    WipeAsked(Option<Seq<char>>, Seq<char>),
    AutoPartitioning(bool, Seq<char>, Seq<char>),
    PartitionerAsked(Option<Seq<char>>),
    ManualDiskAsked(Option<Seq<char>>),
    Partitioning(Option<Seq<char>>),
    RootAsked(Option<Seq<char>>),
    EfiAsked(Seq<char>),
    VolumeAsked(bool, Seq<char>, Seq<char>),
    LvmCreating(bool, Seq<char>),
    FsAsked(bool, Seq<char>, Seq<char>, VolumeManager),
    LayoutAsked(bool, Seq<char>, Seq<char>, VolumeManager),
    RootFormatAsked(ChosenView),
    RootFormatting(ChosenView),
    SubvolumesCreating(ChosenView),
    EfiFormatAsked(ChosenView),
    EfiFormatting(ChosenView),
    Over,
}

pub open spec fn ov(o: Option<String>) -> Option<Seq<char>> {
    match o {
        Some(s) => Some(s@),
        None => None,
    }
}

impl View for DiskSetup {
    type V = DiskSetupView;

    open spec fn view(&self) -> DiskSetupView {
        match self {
            DiskSetup::Start => DiskSetupView::Start,
            DiskSetup::LayoutShown => DiskSetupView::LayoutShown,
            DiskSetup::ReuseAsked => DiskSetupView::ReuseAsked,
            DiskSetup::ExistingEfiAsked => DiskSetupView::ExistingEfiAsked,
            DiskSetup::StrategyAsked(e) => DiskSetupView::StrategyAsked(ov(*e)),
            DiskSetup::AutoDiskAsked(e) => DiskSetupView::AutoDiskAsked(ov(*e)),
            DiskSetup::WipeAsked(e, d) => DiskSetupView::WipeAsked(ov(*e), d@),
            DiskSetup::AutoPartitioning(b, r, e) => DiskSetupView::AutoPartitioning(*b, r@, e@),
            DiskSetup::PartitionerAsked(e) => DiskSetupView::PartitionerAsked(ov(*e)),
            DiskSetup::ManualDiskAsked(e) => DiskSetupView::ManualDiskAsked(ov(*e)),
            DiskSetup::Partitioning(e) => DiskSetupView::Partitioning(ov(*e)),
            DiskSetup::RootAsked(e) => DiskSetupView::RootAsked(ov(*e)),
            DiskSetup::EfiAsked(r) => DiskSetupView::EfiAsked(r@),
            DiskSetup::VolumeAsked(b, r, e) => DiskSetupView::VolumeAsked(*b, r@, e@),
            DiskSetup::LvmCreating(b, e) => DiskSetupView::LvmCreating(*b, e@),
            DiskSetup::FsAsked(b, r, e, v) => DiskSetupView::FsAsked(*b, r@, e@, *v),
            DiskSetup::LayoutAsked(b, r, e, v) => DiskSetupView::LayoutAsked(*b, r@, e@, *v),
            DiskSetup::RootFormatAsked(c) => DiskSetupView::RootFormatAsked(c@),
            DiskSetup::RootFormatting(c) => DiskSetupView::RootFormatting(c@),
            DiskSetup::SubvolumesCreating(c) => DiskSetupView::SubvolumesCreating(c@),
            DiskSetup::EfiFormatAsked(c) => DiskSetupView::EfiFormatAsked(c@),
            DiskSetup::EfiFormatting(c) => DiskSetupView::EfiFormatting(c@),
            DiskSetup::Over => DiskSetupView::Over,
        }
    }
}

pub type NoteView = (Level, Seq<char>);

pub type StepView = (Seq<NoteView>, ActionView);

// ── Transition specification ────────────────────────────────────

pub open spec fn st(text: Seq<char>) -> Option<NoteView> {
    Some((Level::Status, text))
}

pub open spec fn ask_step(notes: Seq<NoteView>, a: AskView) -> StepView {
    (notes, ActionView::Ask(a))
}

pub open spec fn fail_step(e: ErrorView) -> StepView {
    (seq![], ActionView::Fail(e))
}

pub open spec fn strategy_ask() -> AskView {
    AskView::Select(strategy_prompt(), seq!["Automated"@, "Manual"@])
}

pub open spec fn volume_ask() -> AskView {
    AskView::Select(volume_prompt(), seq!["Standard"@, "LVM"@])
}

pub open spec fn fs_ask() -> AskView {
    AskView::Select(fs_prompt(), seq!["ext4"@, "btrfs"@, "xfs"@])
}

pub open spec fn layout_ask() -> AskView {
    AskView::Select(layout_prompt(), seq!["Simple"@, "Full"@])
}

pub open spec fn root_format_ask(root: Seq<char>, fs: FsType) -> AskView {
    AskView::Destructive(root_format_warning(), "Format "@ + root + " as "@ + fs.label() + "?"@)
}

pub open spec fn efi_format_ask() -> AskView {
    AskView::Destructive(efi_format_warning(), "Format the existing EFI partition?"@)
}

pub open spec fn lsblk_step(text: Seq<char>) -> CmdStepView {
    (st(text), ("lsblk"@, seq![]), None)
}

/// The commands of automated partitioning of `disk`.
pub open spec fn auto_steps(disk: Seq<char>, keep_efi: bool) -> Seq<CmdStepView> {
    seq![
        (st("Wiping partition table on "@ + disk + "..."@), ("sgdisk"@, seq!["--zap-all"@, disk]), None),
        (
            st(if keep_efi {
                "Creating Linux partition (entire disk)..."@
            } else {
                "Creating EFI (512 MiB) + Linux partitions..."@
            }),
            ("sgdisk"@, create_args(disk, keep_efi)),
            None,
        ),
        (
            st("Refreshing partition table..."@),
            ("partprobe"@, seq![disk]),
            Some("partprobe failed — the kernel may not see new partitions"@),
        ),
        lsblk_step("Updated partition layout:"@),
    ]
}

pub open spec fn lvm_steps(partition: Seq<char>) -> Seq<CmdStepView> {
    seq![
        (
            st("Creating Physical Volume on "@ + partition + "..."@),
            ("pvcreate"@, seq!["-f"@, partition]),
            None,
        ),
        (
            st("Creating Volume Group '"@ + VG_NAME@ + "'..."@),
            ("vgcreate"@, seq![VG_NAME@, partition]),
            None,
        ),
        (
            st("Creating Logical Volume '"@ + LV_ROOT@ + "' (100% of VG)..."@),
            ("lvcreate"@, seq!["-l"@, "100%FREE"@, "-n"@, LV_ROOT@, VG_NAME@]),
            None,
        ),
    ]
}

pub open spec fn btrfs_warnings(vm: VolumeManager) -> Seq<NoteView> {
    (if vm == VolumeManager::Lvm {
        seq![
            (Level::Warning, "BTRFS on LVM — NEVER use LVM-level snapshots!"@),
            (
                Level::Warning,
                "BTRFS is highly sensitive to UUID duplication. An LVM snapshot creates a second block device with the same BTRFS UUID; the kernel may treat both as part of the same filesystem, leading to catastrophic data corruption."@,
            ),
            (Level::Info, "Use BTRFS's native subvolume snapshots (e.g. snapper, btrbk) instead."@),
        ]
    } else {
        seq![]
    }) + seq![
        (Level::Info, "Simple  — single '@' subvolume (classic layout)."@),
        (Level::Info, "Full    — '@', '@home', '@log', '@cache', '@snapshots' (snapshot-friendly)."@),
    ]
}

pub open spec fn efi_format_step(efi: Seq<char>) -> CmdStepView {
    (st("Formatting "@ + efi + " as FAT32..."@), ("mkfs.fat"@, seq!["-F32"@, efi]), None)
}

pub open spec fn context_of(c: ChosenView) -> ContextView {
    ContextView {
        root_device: c.root,
        efi_device: c.efi,
        fs_type: c.fs,
        btrfs_layout: c.layout,
        volume_mgr: c.vm,
    }
}

/// After the (possible) format of an EFI partition.
pub open spec fn efi_next(c: ChosenView, notes: Seq<NoteView>) -> (DiskSetupView, StepView) {
    if c.reuse_efi {
        (DiskSetupView::EfiFormatAsked(c), ask_step(notes, efi_format_ask()))
    } else {
        (DiskSetupView::EfiFormatting(c), (notes, ActionView::Run(seq![efi_format_step(c.efi)])))
    }
}

/// After the (possible) format of the root device.
pub open spec fn root_next(c: ChosenView, notes: Seq<NoteView>) -> (DiskSetupView, StepView) {
    if c.fs == FsType::Btrfs {
        let layout = match c.layout {
            Some(l) => l,
            None => BtrfsLayout::Simple,
        };
        let svs = layout.subvolume_specs();
        (
            DiskSetupView::SubvolumesCreating(c),
            (
                notes.push(
                    (
                        Level::Status,
                        "Creating "@ + decimal(svs.len()) + " BTRFS subvolume(s) on "@ + c.root
                            + "..."@,
                    ),
                ),
                ActionView::Guarded(
                    BTRFS_SETUP_DIR@,
                    (None, ("mount"@, seq![c.root, BTRFS_SETUP_DIR@]), None),
                    subvol_steps(svs),
                    ("umount"@, seq![BTRFS_SETUP_DIR@]),
                ),
            ),
        )
    } else {
        efi_next(c, notes)
    }
}

/// One step of disk setup: from state `s` and what came of the last action,
/// the next state and what to do.
pub open spec fn disk_next(s: DiskSetupView, e: EventView) -> (DiskSetupView, StepView) {
    match (s, e) {
        (_, EventView::Failed(m)) => (DiskSetupView::Over, fail_step(ErrorView::CommandFailed(m))),
        (DiskSetupView::Start, EventView::Start) => (
            DiskSetupView::LayoutShown,
            (seq![], ActionView::Run(seq![lsblk_step("Current disk layout:"@)])),
        ),
        (DiskSetupView::LayoutShown, EventView::Done) => (
            DiskSetupView::ReuseAsked,
            ask_step(seq![], AskView::Confirm(reuse_prompt(), false)),
        ),
        (DiskSetupView::ReuseAsked, EventView::Answer(b)) => if b {
            (DiskSetupView::ExistingEfiAsked, ask_step(seq![], AskView::BlockDevice(existing_efi_prompt())))
        } else {
            (DiskSetupView::StrategyAsked(None), ask_step(seq![], strategy_ask()))
        },
        (DiskSetupView::ExistingEfiAsked, EventView::Text(efi)) => (
            DiskSetupView::StrategyAsked(Some(efi)),
            ask_step(seq![], strategy_ask()),
        ),
        (DiskSetupView::StrategyAsked(ex), EventView::Text(c)) => match PartitionStrategy::parsed(c) {
            None => (
                DiskSetupView::Over,
                fail_step(ErrorView::InvalidChoice(unknown_message("Unknown partition strategy: '"@, c))),
            ),
            Some(PartitionStrategy::Auto) => (
                DiskSetupView::AutoDiskAsked(ex),
                ask_step(seq![], AskView::BlockDevice(auto_disk_prompt())),
            ),
            Some(PartitionStrategy::Manual) => (
                DiskSetupView::PartitionerAsked(ex),
                ask_step(seq![], AskView::Confirm(partition_first_prompt(), false)),
            ),
        },
        (DiskSetupView::AutoDiskAsked(ex), EventView::Text(d)) => (
            DiskSetupView::WipeAsked(ex, d),
            ask_step(
                seq![],
                AskView::Destructive(
                    "ALL DATA on "@ + d + " will be permanently destroyed."@,
                    "Wipe "@ + d + " and create a new partition table?"@,
                ),
            ),
        ),
        (DiskSetupView::WipeAsked(ex, d), EventView::Answer(b)) => if !b {
            (DiskSetupView::Over, fail_step(ErrorView::PartitioningCancelled))
        } else {
            match ex {
                Some(efi) => (
                    DiskSetupView::AutoPartitioning(true, partition_name(d, 1), efi),
                    (seq![], ActionView::Run(auto_steps(d, true))),
                ),
                None => (
                    DiskSetupView::AutoPartitioning(
                        false,
                        partition_name(d, 2),
                        partition_name(d, 1),
                    ),
                    (seq![], ActionView::Run(auto_steps(d, false))),
                ),
            }
        },
        (DiskSetupView::AutoPartitioning(reuse, root, efi), EventView::Done) => (
            DiskSetupView::VolumeAsked(reuse, root, efi),
            ask_step(seq![(Level::Success, "Automated partitioning complete."@)], volume_ask()),
        ),
        (DiskSetupView::PartitionerAsked(ex), EventView::Answer(b)) => if b {
            (DiskSetupView::ManualDiskAsked(ex), ask_step(seq![], AskView::BlockDevice(partition_disk_prompt())))
        } else {
            (DiskSetupView::RootAsked(ex), ask_step(seq![], AskView::BlockDevice(root_prompt())))
        },
        (DiskSetupView::ManualDiskAsked(ex), EventView::Text(d)) => (
            DiskSetupView::Partitioning(ex),
            (
                seq![],
                ActionView::Run(
                    seq![
                        (st("Launching cfdisk for "@ + d + "..."@), ("cfdisk"@, seq![d]), None),
                        lsblk_step("Updated partition layout:"@),
                    ],
                ),
            ),
        ),
        (DiskSetupView::Partitioning(ex), EventView::Done) => (
            DiskSetupView::RootAsked(ex),
            ask_step(seq![], AskView::BlockDevice(root_prompt())),
        ),
        (DiskSetupView::RootAsked(ex), EventView::Text(root)) => match ex {
            Some(efi) => (DiskSetupView::VolumeAsked(true, root, efi), ask_step(seq![], volume_ask())),
            None => (DiskSetupView::EfiAsked(root), ask_step(seq![], AskView::BlockDevice(efi_prompt()))),
        },
        (DiskSetupView::EfiAsked(root), EventView::Text(efi)) => (
            DiskSetupView::VolumeAsked(false, root, efi),
            ask_step(seq![], volume_ask()),
        ),
        (DiskSetupView::VolumeAsked(reuse, root, efi), EventView::Text(c)) => match VolumeManager::parsed(c) {
            None => (
                DiskSetupView::Over,
                fail_step(ErrorView::InvalidChoice(unknown_message("Unknown volume manager: '"@, c))),
            ),
            Some(VolumeManager::Lvm) => (
                DiskSetupView::LvmCreating(reuse, efi),
                (seq![], ActionView::Run(lvm_steps(root))),
            ),
            Some(VolumeManager::Standard) => (
                DiskSetupView::FsAsked(reuse, root, efi, VolumeManager::Standard),
                ask_step(seq![], fs_ask()),
            ),
        },
        (DiskSetupView::LvmCreating(reuse, efi), EventView::Done) => (
            DiskSetupView::FsAsked(reuse, lv_path(), efi, VolumeManager::Lvm),
            ask_step(seq![(Level::Success, "LVM ready — root device: "@ + lv_path())], fs_ask()),
        ),
        (DiskSetupView::FsAsked(reuse, root, efi, vm), EventView::Text(c)) => match FsType::parsed(c) {
            None => (
                DiskSetupView::Over,
                fail_step(ErrorView::InvalidChoice(unknown_message("Unknown filesystem type: '"@, c))),
            ),
            Some(FsType::Btrfs) => (
                DiskSetupView::LayoutAsked(reuse, root, efi, vm),
                ask_step(btrfs_warnings(vm), layout_ask()),
            ),
            Some(fs) => (
                DiskSetupView::RootFormatAsked(
                    ChosenView { reuse_efi: reuse, root, efi, vm, fs, layout: None },
                ),
                ask_step(seq![], root_format_ask(root, fs)),
            ),
        },
        (DiskSetupView::LayoutAsked(reuse, root, efi, vm), EventView::Text(c)) => match BtrfsLayout::parsed(c) {
            None => (
                DiskSetupView::Over,
                fail_step(ErrorView::InvalidChoice(unknown_message("Unknown BTRFS layout: '"@, c))),
            ),
            Some(l) => (
                DiskSetupView::RootFormatAsked(
                    ChosenView { reuse_efi: reuse, root, efi, vm, fs: FsType::Btrfs, layout: Some(l) },
                ),
                ask_step(seq![], root_format_ask(root, FsType::Btrfs)),
            ),
        },
        (DiskSetupView::RootFormatAsked(c), EventView::Answer(b)) => if b {
            (
                DiskSetupView::RootFormatting(c),
                (
                    seq![],
                    ActionView::Run(
                        seq![
                            (
                                st("Formatting "@ + c.root + " as "@ + c.fs.label() + "..."@),
                                mkfs_for(c.root, c.fs),
                                None,
                            ),
                        ],
                    ),
                ),
            )
        } else {
            root_next(c, seq![(Level::Info, "Skipping root format (assuming it is already formatted)."@)])
        },
        (DiskSetupView::RootFormatting(c), EventView::Done) => root_next(
            c,
            seq![(Level::Success, "Root device formatted."@)],
        ),
        (DiskSetupView::SubvolumesCreating(c), EventView::Done) => efi_next(
            c,
            seq![(Level::Success, "BTRFS subvolumes created."@)],
        ),
        (DiskSetupView::EfiFormatAsked(c), EventView::Answer(b)) => if b {
            (DiskSetupView::EfiFormatting(c), (seq![], ActionView::Run(seq![efi_format_step(c.efi)])))
        } else {
            (
                DiskSetupView::Over,
                (
                    seq![(Level::Info, "Skipping EFI format. Existing bootloaders will be preserved."@)],
                    ActionView::Finish(context_of(c)),
                ),
            )
        },
        (DiskSetupView::EfiFormatting(c), EventView::Done) => (
            DiskSetupView::Over,
            (seq![(Level::Success, "EFI partition formatted."@)], ActionView::Finish(context_of(c))),
        ),
        _ => (DiskSetupView::Over, fail_step(ErrorView::UnexpectedEvent)),
    }
}


// ── Execution ───────────────────────────────────────────────────

fn lsblk_cmd_step(text: &str) -> (r: CmdStep)
    ensures
        r@ == lsblk_step(text@),
{
    let c = Cmd::new("lsblk", &[]);
    assert(c@.1 =~= Seq::<Seq<char>>::empty());
    cmd_step(status(String::from_str(text)), c)
}

fn steps1(a: CmdStep) -> (r: Vec<CmdStep>)
    ensures
        cmd_step_views(r@) == seq![a@],
{
    let mut v: Vec<CmdStep> = Vec::new();
    v.push(a);
    assert(cmd_step_views(v@) =~= seq![a@]);
    v
}

fn steps2(a: CmdStep, b: CmdStep) -> (r: Vec<CmdStep>)
    ensures
        cmd_step_views(r@) == seq![a@, b@],
{
    let mut v: Vec<CmdStep> = Vec::new();
    v.push(a);
    v.push(b);
    assert(cmd_step_views(v@) =~= seq![a@, b@]);
    v
}

fn steps3(a: CmdStep, b: CmdStep, c: CmdStep) -> (r: Vec<CmdStep>)
    ensures
        cmd_step_views(r@) == seq![a@, b@, c@],
{
    let mut v: Vec<CmdStep> = Vec::new();
    v.push(a);
    v.push(b);
    v.push(c);
    assert(cmd_step_views(v@) =~= seq![a@, b@, c@]);
    v
}

fn steps4(a: CmdStep, b: CmdStep, c: CmdStep, d: CmdStep) -> (r: Vec<CmdStep>)
    ensures
        cmd_step_views(r@) == seq![a@, b@, c@, d@],
{
    let mut v: Vec<CmdStep> = Vec::new();
    v.push(a);
    v.push(b);
    v.push(c);
    v.push(d);
    assert(cmd_step_views(v@) =~= seq![a@, b@, c@, d@]);
    v
}

fn no_notes() -> (r: Vec<Note>)
    ensures
        note_views(r@) == Seq::<NoteView>::empty(),
{
    let v: Vec<Note> = Vec::new();
    assert(note_views(v@) =~= Seq::<NoteView>::empty());
    v
}

fn strategy_action() -> (r: Action)
    ensures
        r@ == ActionView::Ask(strategy_ask()),
{
    ask_select("Choose your partitioning strategy:", PartitionStrategy::select_options())
}

fn volume_action() -> (r: Action)
    ensures
        r@ == ActionView::Ask(volume_ask()),
{
    ask_select("Select volume management:", VolumeManager::select_options())
}

fn fs_action() -> (r: Action)
    ensures
        r@ == ActionView::Ask(fs_ask()),
{
    ask_select("Root filesystem type:", FsType::select_options())
}

fn layout_action() -> (r: Action)
    ensures
        r@ == ActionView::Ask(layout_ask()),
{
    ask_select("Select BTRFS subvolume layout:", BtrfsLayout::select_options())
}

fn root_format_action(root: &str, fs: FsType) -> (r: Action)
    ensures
        r@ == ActionView::Ask(root_format_ask(root@, fs)),
{
    let mut prompt = String::from_str("Format ");
    prompt.append(root);
    prompt.append(" as ");
    prompt.append(fs.as_str());
    prompt.append("?");
    ask_destructive(
        String::from_str("All data on this partition/volume will be permanently erased."),
        prompt,
    )
}

fn auto_cmd_steps(disk: &str, existing_efi: Option<&str>) -> (r: (Vec<CmdStep>, auto::AutoResult))
    ensures
        cmd_step_views(r.0@) == auto_steps(disk@, existing_efi is Some),
        existing_efi is Some ==> r.1.linux_part@ == partition_name(disk@, 1),
        existing_efi is None ==> r.1.linux_part@ == partition_name(disk@, 2) && (r.1.efi_part matches Some(e)
            && e@ == partition_name(disk@, 1)),
{
    let keep = existing_efi.is_some();
    match auto::run(disk, existing_efi, true) {
        Ok(plan) => {
            let wipe = cmd_step(status(cat3("Wiping partition table on ", disk, "...")), plan.wipe);
            let text = if keep {
                String::from_str("Creating Linux partition (entire disk)...")
            } else {
                String::from_str("Creating EFI (512 MiB) + Linux partitions...")
            };
            let create = cmd_step(status(text), plan.create);
            let refresh = CmdStep {
                note: status(String::from_str("Refreshing partition table...")),
                cmd: plan.refresh,
                failure_context: Some(
                    String::from_str("partprobe failed — the kernel may not see new partitions"),
                ),
            };
            let show = cmd_step(status(String::from_str("Updated partition layout:")), plan.show);
            let v = steps4(wipe, create, refresh, show);
            assert(cmd_step_views(v@) =~= auto_steps(disk@, keep));
            (v, plan.result)
        },
        Err(_) => {
            proof {
                assert(false);
            }
            (Vec::new(), auto::AutoResult { efi_part: None, linux_part: String::new() })
        },
    }
}

fn lvm_cmd_steps(partition: &str) -> (r: Vec<CmdStep>)
    ensures
        cmd_step_views(r@) == lvm_steps(partition@),
{
    let plan = lvm::setup(partition);
    let pv = cmd_step(status(cat3("Creating Physical Volume on ", partition, "...")), plan.pvcreate);
    let vg = cmd_step(status(cat3("Creating Volume Group '", VG_NAME, "'...")), plan.vgcreate);
    let lv = cmd_step(
        status(cat3("Creating Logical Volume '", LV_ROOT, "' (100% of VG)...")),
        plan.lvcreate,
    );
    steps3(pv, vg, lv)
}

fn btrfs_notes(vm: VolumeManager) -> (r: Vec<Note>)
    ensures
        note_views(r@) == btrfs_warnings(vm),
{
    let mut v: Vec<Note> = Vec::new();
    if vm == VolumeManager::Lvm {
        v.push(note(Level::Warning, String::from_str("BTRFS on LVM — NEVER use LVM-level snapshots!")));
        v.push(
            note(
                Level::Warning,
                String::from_str(
                    "BTRFS is highly sensitive to UUID duplication. An LVM snapshot creates a second block device with the same BTRFS UUID; the kernel may treat both as part of the same filesystem, leading to catastrophic data corruption.",
                ),
            ),
        );
        v.push(
            note(
                Level::Info,
                String::from_str("Use BTRFS's native subvolume snapshots (e.g. snapper, btrbk) instead."),
            ),
        );
    }
    v.push(note(Level::Info, String::from_str("Simple  — single '@' subvolume (classic layout).")));
    v.push(
        note(
            Level::Info,
            String::from_str(
                "Full    — '@', '@home', '@log', '@cache', '@snapshots' (snapshot-friendly).",
            ),
        ),
    );
    assert(note_views(v@) =~= btrfs_warnings(vm));
    v
}

fn efi_format_cmd_step(efi: &str) -> (r: CmdStep)
    ensures
        r@ == efi_format_step(efi@),
{
    cmd_step(status(cat3("Formatting ", efi, " as FAT32...")), format::format_efi(efi))
}

fn context_from(c: Chosen) -> (r: InstallContext)
    ensures
        r@ == context_of(c@),
{
    InstallContext {
        root_device: c.root,
        efi_device: c.efi,
        fs_type: c.fs,
        btrfs_layout: c.layout,
        volume_mgr: c.vm,
    }
}

fn efi_next_exec(c: Chosen, notes: Vec<Note>) -> (r: (DiskSetup, Step))
    ensures
        (r.0@, r.1@) == efi_next(c@, note_views(notes@)),
{
    if c.reuse_efi {
        let a = ask_destructive(
            String::from_str("Formatting will destroy existing bootloaders on this EFI partition."),
            String::from_str("Format the existing EFI partition?"),
        );
        (DiskSetup::EfiFormatAsked(c), step_of(notes, a))
    } else {
        let s = efi_format_cmd_step(c.efi.as_str());
        (DiskSetup::EfiFormatting(c), step_of(notes, Action::Run(steps1(s))))
    }
}

fn root_next_exec(c: Chosen, notes: Vec<Note>) -> (r: (DiskSetup, Step))
    ensures
        (r.0@, r.1@) == root_next(c@, note_views(notes@)),
{
    if c.fs == FsType::Btrfs {
        let layout = match c.layout {
            Some(l) => l,
            None => BtrfsLayout::Simple,
        };
        let plan = btrfs::create_subvolumes(c.root.as_str(), layout);
        let mut notes = notes;
        let ghost before = notes@;
        notes.push(note(Level::Status, plan.announce));
        proof {
            assert(note_views(notes@) =~= note_views(before).push(notes@.last()@));
        }
        let action = Action::Guarded {
            dir: plan.setup_dir,
            setup: cmd_step(None, plan.mount),
            steps: plan.creates,
            cleanup: plan.unmount,
        };
        (DiskSetup::SubvolumesCreating(c), step_of(notes, action))
    } else {
        efi_next_exec(c, notes)
    }
}

fn unexpected() -> (r: (DiskSetup, Step))
    ensures
        r.0@ == DiskSetupView::Over,
        r.1@ == fail_step(ErrorView::UnexpectedEvent),
{
    (DiskSetup::Over, fail(InstallError::UnexpectedEvent))
}

fn invalid_choice(msg: String) -> (r: (DiskSetup, Step))
    ensures
        r.0@ == DiskSetupView::Over,
        r.1@ == fail_step(ErrorView::InvalidChoice(msg@)),
{
    (DiskSetup::Over, fail(InstallError::InvalidChoice(msg)))
}

/// One step of the disk setup stage: from where it stands and what came of
/// the last action (`Event::Start` at first), the next state and what to
/// do. Disk setup shows the disks; learns whether an EFI partition is
/// reused; partitions automatically (after the user agrees to wipe the
/// disk) or lets the user pick partitions; optionally puts LVM on the root
/// partition; asks for the filesystem (and BTRFS layout); formats the root
/// after a destructive confirmation; creates BTRFS subvolumes; and formats
/// the EFI partition, asking first when it is the user's own. It finishes
/// with the install context.
pub fn run(state: DiskSetup, event: Event) -> (r: (DiskSetup, Step))
    ensures
        (r.0@, r.1@) == disk_next(state@, event@),
{
    let event = match event {
        Event::Failed(m) => {
            return (DiskSetup::Over, fail(InstallError::CommandFailed(m)));
        },
        other => other,
    };
    match state {
        DiskSetup::Start => match event {
            Event::Start => {
                let s = lsblk_cmd_step("Current disk layout:");
                (DiskSetup::LayoutShown, quiet(Action::Run(steps1(s))))
            },
            _ => unexpected(),
        },
        DiskSetup::LayoutShown => match event {
            Event::Done => (
                DiskSetup::ReuseAsked,
                quiet(
                    ask_confirm(
                        "Do you have an existing EFI partition to reuse? (e.g., dual-booting with another OS)",
                        false,
                    ),
                ),
            ),
            _ => unexpected(),
        },
        DiskSetup::ReuseAsked => match event {
            Event::Answer(b) => if b {
                (
                    DiskSetup::ExistingEfiAsked,
                    quiet(ask_device("Enter the existing EFI partition (e.g., /dev/nvme0n1p1):")),
                )
            } else {
                (DiskSetup::StrategyAsked(None), quiet(strategy_action()))
            },
            _ => unexpected(),
        },
        DiskSetup::ExistingEfiAsked => match event {
            Event::Text(efi) => (DiskSetup::StrategyAsked(Some(efi)), quiet(strategy_action())),
            _ => unexpected(),
        },
        DiskSetup::StrategyAsked(ex) => match event {
            Event::Text(c) => match PartitionStrategy::parse(c.as_str()) {
                Err(msg) => invalid_choice(msg),
                Ok(PartitionStrategy::Auto) => (
                    DiskSetup::AutoDiskAsked(ex),
                    quiet(ask_device("Enter the target disk for automated partitioning (e.g., /dev/sda):")),
                ),
                Ok(PartitionStrategy::Manual) => (
                    DiskSetup::PartitionerAsked(ex),
                    quiet(ask_confirm("Do you need to partition a disk first? (e.g., for a new PC)", false)),
                ),
            },
            _ => unexpected(),
        },
        DiskSetup::AutoDiskAsked(ex) => match event {
            Event::Text(d) => {
                let warning = cat3("ALL DATA on ", d.as_str(), " will be permanently destroyed.");
                let prompt = cat3("Wipe ", d.as_str(), " and create a new partition table?");
                (DiskSetup::WipeAsked(ex, d), quiet(ask_destructive(warning, prompt)))
            },
            _ => unexpected(),
        },
        DiskSetup::WipeAsked(ex, d) => match event {
            Event::Answer(b) => if !b {
                (DiskSetup::Over, fail(InstallError::PartitioningCancelled))
            } else {
                match ex {
                    Some(efi) => {
                        let (steps, result) = auto_cmd_steps(d.as_str(), Some(efi.as_str()));
                        (
                            DiskSetup::AutoPartitioning(true, result.linux_part, efi),
                            quiet(Action::Run(steps)),
                        )
                    },
                    None => {
                        let (steps, result) = auto_cmd_steps(d.as_str(), None);
                        let efi = match result.efi_part {
                            Some(e) => e,
                            None => {
                                proof {
                                    assert(false);
                                }
                                String::new()
                            },
                        };
                        (
                            DiskSetup::AutoPartitioning(false, result.linux_part, efi),
                            quiet(Action::Run(steps)),
                        )
                    },
                }
            },
            _ => unexpected(),
        },
        DiskSetup::AutoPartitioning(reuse, root, efi) => match event {
            Event::Done => (
                DiskSetup::VolumeAsked(reuse, root, efi),
                step_of(
                    one_note(note(Level::Success, String::from_str("Automated partitioning complete."))),
                    volume_action(),
                ),
            ),
            _ => unexpected(),
        },
        DiskSetup::PartitionerAsked(ex) => match event {
            Event::Answer(b) => if b {
                (
                    DiskSetup::ManualDiskAsked(ex),
                    quiet(ask_device("Enter the disk to partition (e.g., /dev/nvme0n1 or /dev/sda):")),
                )
            } else {
                (
                    DiskSetup::RootAsked(ex),
                    quiet(ask_device("Enter the ROOT partition (e.g., /dev/nvme0n1p2):")),
                )
            },
            _ => unexpected(),
        },
        DiskSetup::ManualDiskAsked(ex) => match event {
            Event::Text(d) => {
                let c = Cmd::new("cfdisk", &[d.as_str()]);
                assert(c@.1 =~= seq![d@]);
                let launch = cmd_step(status(cat3("Launching cfdisk for ", d.as_str(), "...")), c);
                let show = lsblk_cmd_step("Updated partition layout:");
                (DiskSetup::Partitioning(ex), quiet(Action::Run(steps2(launch, show))))
            },
            _ => unexpected(),
        },
        DiskSetup::Partitioning(ex) => match event {
            Event::Done => (
                DiskSetup::RootAsked(ex),
                quiet(ask_device("Enter the ROOT partition (e.g., /dev/nvme0n1p2):")),
            ),
            _ => unexpected(),
        },
        DiskSetup::RootAsked(ex) => match event {
            Event::Text(root) => match manual::run(root, ex) {
                manual::ManualNext::Done(m) => (
                    DiskSetup::VolumeAsked(true, m.root_part, m.efi_part),
                    quiet(volume_action()),
                ),
                manual::ManualNext::AskEfi(root) => (
                    DiskSetup::EfiAsked(root),
                    quiet(ask_device("Enter the EFI partition (e.g., /dev/nvme0n1p1):")),
                ),
            },
            _ => unexpected(),
        },
        DiskSetup::EfiAsked(root) => match event {
            Event::Text(efi) => (DiskSetup::VolumeAsked(false, root, efi), quiet(volume_action())),
            _ => unexpected(),
        },
        DiskSetup::VolumeAsked(reuse, root, efi) => match event {
            Event::Text(c) => match VolumeManager::parse(c.as_str()) {
                Err(msg) => invalid_choice(msg),
                Ok(VolumeManager::Lvm) => {
                    let steps = lvm_cmd_steps(root.as_str());
                    (DiskSetup::LvmCreating(reuse, efi), quiet(Action::Run(steps)))
                },
                Ok(VolumeManager::Standard) => (
                    DiskSetup::FsAsked(reuse, root, efi, VolumeManager::Standard),
                    quiet(fs_action()),
                ),
            },
            _ => unexpected(),
        },
        DiskSetup::LvmCreating(reuse, efi) => match event {
            Event::Done => {
                let lv = lvm::root_device_path();
                let n = note(Level::Success, cat("LVM ready — root device: ", lv.as_str()));
                (DiskSetup::FsAsked(reuse, lv, efi, VolumeManager::Lvm), step_of(one_note(n), fs_action()))
            },
            _ => unexpected(),
        },
        DiskSetup::FsAsked(reuse, root, efi, vm) => match event {
            Event::Text(c) => match FsType::parse(c.as_str()) {
                Err(msg) => invalid_choice(msg),
                Ok(FsType::Btrfs) => (
                    DiskSetup::LayoutAsked(reuse, root, efi, vm),
                    step_of(btrfs_notes(vm), layout_action()),
                ),
                Ok(fs) => {
                    let a = root_format_action(root.as_str(), fs);
                    (
                        DiskSetup::RootFormatAsked(
                            Chosen { reuse_efi: reuse, root, efi, vm, fs, layout: None },
                        ),
                        quiet(a),
                    )
                },
            },
            _ => unexpected(),
        },
        DiskSetup::LayoutAsked(reuse, root, efi, vm) => match event {
            Event::Text(c) => match BtrfsLayout::parse(c.as_str()) {
                Err(msg) => invalid_choice(msg),
                Ok(l) => {
                    let a = root_format_action(root.as_str(), FsType::Btrfs);
                    (
                        DiskSetup::RootFormatAsked(
                            Chosen { reuse_efi: reuse, root, efi, vm, fs: FsType::Btrfs, layout: Some(l) },
                        ),
                        quiet(a),
                    )
                },
            },
            _ => unexpected(),
        },
        DiskSetup::RootFormatAsked(c) => match event {
            Event::Answer(b) => if b {
                let s = if c.fs == FsType::Btrfs {
                    // A BTRFS root is formatted by the first step of its
                    // subvolume plan.
                    let layout = match c.layout {
                        Some(l) => l,
                        None => BtrfsLayout::Simple,
                    };
                    btrfs::create_subvolumes(c.root.as_str(), layout).format
                } else {
                    let mut text = String::from_str("Formatting ");
                    text.append(c.root.as_str());
                    text.append(" as ");
                    text.append(c.fs.as_str());
                    text.append("...");
                    cmd_step(status(text), format::mkfs_command(c.root.as_str(), c.fs))
                };
                (DiskSetup::RootFormatting(c), quiet(Action::Run(steps1(s))))
            } else {
                root_next_exec(
                    c,
                    one_note(
                        note(
                            Level::Info,
                            String::from_str("Skipping root format (assuming it is already formatted)."),
                        ),
                    ),
                )
            },
            _ => unexpected(),
        },
        DiskSetup::RootFormatting(c) => match event {
            Event::Done => root_next_exec(
                c,
                one_note(note(Level::Success, String::from_str("Root device formatted."))),
            ),
            _ => unexpected(),
        },
        DiskSetup::SubvolumesCreating(c) => match event {
            Event::Done => efi_next_exec(
                c,
                one_note(note(Level::Success, String::from_str("BTRFS subvolumes created."))),
            ),
            _ => unexpected(),
        },
        DiskSetup::EfiFormatAsked(c) => match event {
            Event::Answer(b) => if b {
                let s = efi_format_cmd_step(c.efi.as_str());
                (DiskSetup::EfiFormatting(c), quiet(Action::Run(steps1(s))))
            } else {
                let n = note(
                    Level::Info,
                    String::from_str("Skipping EFI format. Existing bootloaders will be preserved."),
                );
                (DiskSetup::Over, step_of(one_note(n), Action::Finish(context_from(c))))
            },
            _ => unexpected(),
        },
        DiskSetup::EfiFormatting(c) => match event {
            Event::Done => {
                let n = note(Level::Success, String::from_str("EFI partition formatted."));
                (DiskSetup::Over, step_of(one_note(n), Action::Finish(context_from(c))))
            },
            _ => unexpected(),
        },
        DiskSetup::Over => unexpected(),
    }
}


// ── Laws ────────────────────────────────────────────────────────

/// What disk setup keeps true of the choices it carries: an LVM root is
/// the installer's logical volume, and a BTRFS layout is chosen exactly for
/// a BTRFS root.
pub open spec fn setup_inv(s: DiskSetupView) -> bool {
    match s {
        DiskSetupView::FsAsked(_, root, _, vm) => vm == VolumeManager::Lvm ==> root == lv_path(),
        DiskSetupView::LayoutAsked(_, root, _, vm) => vm == VolumeManager::Lvm ==> root == lv_path(),
        DiskSetupView::RootFormatAsked(c) => chosen_inv(c),
        DiskSetupView::RootFormatting(c) => chosen_inv(c),
        DiskSetupView::SubvolumesCreating(c) => chosen_inv(c),
        DiskSetupView::EfiFormatAsked(c) => chosen_inv(c),
        DiskSetupView::EfiFormatting(c) => chosen_inv(c),
        _ => true,
    }
}

pub open spec fn chosen_inv(c: ChosenView) -> bool {
    &&& (c.fs == FsType::Btrfs <==> c.layout is Some)
    &&& (c.vm == VolumeManager::Lvm ==> c.root == lv_path())
}

/// Disk setup keeps [`setup_inv`] from its start on, so the context it
/// finishes with has a BTRFS layout exactly when the root is BTRFS, and an
/// LVM root is `/dev/vg_void/lv_root`.
#[verifier::rlimit(80)]
pub proof fn law_disk_setup_context(s: DiskSetupView, e: EventView)
    requires
        setup_inv(s),
    ensures
        setup_inv(DiskSetupView::Start),
        setup_inv(disk_next(s, e).0),
        disk_next(s, e).1.1 matches ActionView::Finish(ctx) ==> {
            &&& (ctx.fs_type == FsType::Btrfs <==> ctx.btrfs_layout is Some)
            &&& (ctx.volume_mgr == VolumeManager::Lvm ==> ctx.root_device == lv_path())
        },
{
}

pub open spec fn is_wipe(c: CmdView) -> bool {
    c.0 == "sgdisk"@ && c.1.len() > 0 && c.1[0] == "--zap-all"@
}

pub open spec fn is_root_mkfs(c: CmdView) -> bool {
    c.0 == "mkfs.ext4"@ || c.0 == "mkfs.xfs"@ || c.0 == "mkfs.btrfs"@
}

pub open spec fn is_efi_mkfs(c: CmdView) -> bool {
    c.0 == "mkfs.fat"@
}

pub open spec fn runs(a: ActionView, p: spec_fn(CmdView) -> bool) -> bool {
    match a {
        ActionView::Run(steps) => exists|i: int| 0 <= i < steps.len() && #[trigger] p(steps[i].1),
        _ => false,
    }
}

proof fn lemma_program_literals()
    ensures
        "lsblk"@ != "sgdisk"@,
        "cfdisk"@ != "sgdisk"@,
        "partprobe"@ != "sgdisk"@,
        "pvcreate"@ != "sgdisk"@,
        "vgcreate"@ != "sgdisk"@,
        "lvcreate"@ != "sgdisk"@,
        "mkfs.fat"@ != "sgdisk"@,
        "-n"@ != "--zap-all"@,
        "mkfs.ext4"@ != "sgdisk"@,
        "mkfs.xfs"@ != "sgdisk"@,
        "mkfs.btrfs"@ != "sgdisk"@,
        "lsblk"@ != "mkfs.fat"@,
        "cfdisk"@ != "mkfs.fat"@,
        "sgdisk"@ != "mkfs.fat"@,
        "partprobe"@ != "mkfs.fat"@,
        "pvcreate"@ != "mkfs.fat"@,
        "vgcreate"@ != "mkfs.fat"@,
        "lvcreate"@ != "mkfs.fat"@,
        "mkfs.ext4"@ != "mkfs.fat"@,
        "mkfs.xfs"@ != "mkfs.fat"@,
        "mkfs.btrfs"@ != "mkfs.fat"@,
        !is_root_mkfs(("lsblk"@, seq![])) ,
        forall|a: Seq<Seq<char>>| !is_root_mkfs(("lsblk"@, a)),
        forall|a: Seq<Seq<char>>| !is_root_mkfs(("cfdisk"@, a)),
        forall|a: Seq<Seq<char>>| !is_root_mkfs(("sgdisk"@, a)),
        forall|a: Seq<Seq<char>>| !is_root_mkfs(("partprobe"@, a)),
        forall|a: Seq<Seq<char>>| !is_root_mkfs(("pvcreate"@, a)),
        forall|a: Seq<Seq<char>>| !is_root_mkfs(("vgcreate"@, a)),
        forall|a: Seq<Seq<char>>| !is_root_mkfs(("lvcreate"@, a)),
        forall|a: Seq<Seq<char>>| !is_root_mkfs(("mkfs.fat"@, a)),
{
    reveal_strlit("lsblk");
    reveal_strlit("sgdisk");
    reveal_strlit("cfdisk");
    reveal_strlit("partprobe");
    reveal_strlit("pvcreate");
    reveal_strlit("vgcreate");
    reveal_strlit("lvcreate");
    reveal_strlit("mkfs.fat");
    reveal_strlit("-n");
    reveal_strlit("--zap-all");
    reveal_strlit("mkfs.ext4");
    reveal_strlit("mkfs.xfs");
    reveal_strlit("mkfs.btrfs");
    assert("lsblk"@.len() == 5);
    assert("sgdisk"@.len() == 6);
    assert("cfdisk"@[0] == 'c' && "sgdisk"@[0] == 's');
    assert("partprobe"@.len() == 9);
    assert("pvcreate"@[0] == 'p' && "vgcreate"@[0] == 'v' && "lvcreate"@[0] == 'l');
    assert("mkfs.fat"@.len() == 8 && "mkfs.fat"@[0] == 'm');
    assert("-n"@.len() == 2 && "--zap-all"@.len() == 9);
    assert("mkfs.ext4"@.len() == 9 && "mkfs.xfs"@.len() == 8 && "mkfs.btrfs"@.len() == 10);
    assert("mkfs.xfs"@[5] == 'x' && "mkfs.fat"@[5] == 'f');
    assert("cfdisk"@.len() == 6);
    assert("partprobe"@[0] == 'p' && "mkfs.ext4"@[0] == 'm');
}

/// Automated partitioning wipes a disk only right after the user agreed to
/// wipe that very disk.
pub proof fn law_wipe_needs_consent(s: DiskSetupView, e: EventView)
    ensures
        runs(disk_next(s, e).1.1, |c: CmdView| is_wipe(c)) ==> (s matches DiskSetupView::WipeAsked(_, d)
            && e == EventView::Answer(true)),
{
    lemma_program_literals();
    if runs(disk_next(s, e).1.1, |c: CmdView| is_wipe(c)) {
        match (s, e) {
            (DiskSetupView::WipeAsked(ex, d), EventView::Answer(b)) => {},
            _ => {
                assert(false);
            },
        }
    }
}

/// The root device is formatted only right after the user confirmed the
/// destructive prompt for it.
pub proof fn law_root_format_needs_consent(s: DiskSetupView, e: EventView)
    ensures
        runs(disk_next(s, e).1.1, |c: CmdView| is_root_mkfs(c)) ==> (s is RootFormatAsked
            && e == EventView::Answer(true)),
{
    lemma_program_literals();
    if runs(disk_next(s, e).1.1, |c: CmdView| is_root_mkfs(c)) {
        match (s, e) {
            (DiskSetupView::RootFormatAsked(c), EventView::Answer(b)) => {},
            _ => {
                assert(false);
            },
        }
    }
}

/// An EFI partition that the user brought is formatted only right after
/// they confirmed it; one created by automated partitioning is always
/// formatted.
pub proof fn law_reused_efi_needs_consent(s: DiskSetupView, e: EventView)
    ensures
        runs(disk_next(s, e).1.1, |c: CmdView| is_efi_mkfs(c)) ==> (disk_next(s, e).0 matches DiskSetupView::EfiFormatting(c)
            && (c.reuse_efi ==> s == DiskSetupView::EfiFormatAsked(c) && e == EventView::Answer(true))),
{
    lemma_program_literals();
}

/// The reuse flag and the EFI partition agree with the EFI partition that
/// the user gave as an existing one (`g`), if any.
pub open spec fn reuse_matches(reuse: bool, efi: Seq<char>, g: Option<Seq<char>>) -> bool {
    &&& (reuse <==> g is Some)
    &&& (g matches Some(p) ==> efi == p)
}

/// What each state of disk setup holds of the existing EFI partition `g`
/// that the user gave (none before it was asked for).
pub open spec fn efi_given(s: DiskSetupView, g: Option<Seq<char>>) -> bool {
    match s {
        DiskSetupView::Start => g is None,
        DiskSetupView::LayoutShown => g is None,
        DiskSetupView::ReuseAsked => g is None,
        DiskSetupView::ExistingEfiAsked => g is None,
        DiskSetupView::StrategyAsked(ex) => ex == g,
        DiskSetupView::AutoDiskAsked(ex) => ex == g,
        DiskSetupView::WipeAsked(ex, _) => ex == g,
        DiskSetupView::PartitionerAsked(ex) => ex == g,
        DiskSetupView::ManualDiskAsked(ex) => ex == g,
        DiskSetupView::Partitioning(ex) => ex == g,
        DiskSetupView::RootAsked(ex) => ex == g,
        DiskSetupView::EfiAsked(_) => g is None,
        DiskSetupView::AutoPartitioning(r, _, efi) => reuse_matches(r, efi, g),
        DiskSetupView::VolumeAsked(r, _, efi) => reuse_matches(r, efi, g),
        DiskSetupView::LvmCreating(r, efi) => reuse_matches(r, efi, g),
        DiskSetupView::FsAsked(r, _, efi, _) => reuse_matches(r, efi, g),
        DiskSetupView::LayoutAsked(r, _, efi, _) => reuse_matches(r, efi, g),
        DiskSetupView::RootFormatAsked(c) => reuse_matches(c.reuse_efi, c.efi, g),
        DiskSetupView::RootFormatting(c) => reuse_matches(c.reuse_efi, c.efi, g),
        DiskSetupView::SubvolumesCreating(c) => reuse_matches(c.reuse_efi, c.efi, g),
        DiskSetupView::EfiFormatAsked(c) => reuse_matches(c.reuse_efi, c.efi, g),
        DiskSetupView::EfiFormatting(c) => reuse_matches(c.reuse_efi, c.efi, g),
        DiskSetupView::Over => true,
    }
}

/// The existing EFI partition given so far, after event `e` in state `s`.
pub open spec fn given_after(s: DiskSetupView, e: EventView, g: Option<Seq<char>>) -> Option<
    Seq<char>,
> {
    match (s, e) {
        (DiskSetupView::ExistingEfiAsked, EventView::Text(efi)) => Some(efi),
        _ => g,
    }
}

proof fn lemma_efi_given_step(s: DiskSetupView, e: EventView, g: Option<Seq<char>>)
    requires
        efi_given(s, g),
    ensures
        efi_given(disk_next(s, e).0, given_after(s, e, g)),
{
    if e is Failed {
    } else {
        match s {
            DiskSetupView::WipeAsked(ex, d) => {},
            DiskSetupView::RootAsked(ex) => {},
            DiskSetupView::EfiAsked(root) => {},
            DiskSetupView::VolumeAsked(r, root, efi) => {},
            DiskSetupView::FsAsked(r, root, efi, vm) => {},
            DiskSetupView::LayoutAsked(r, root, efi, vm) => {},
            DiskSetupView::RootFormatAsked(c) => {},
            DiskSetupView::RootFormatting(c) => {},
            DiskSetupView::SubvolumesCreating(c) => {},
            DiskSetupView::EfiFormatAsked(c) => {},
            DiskSetupView::EfiFormatting(c) => {},
            _ => {},
        }
    }
}

/// An EFI partition that the user gave as an existing one, whether then
/// partitioning automatically or by hand, is the install's EFI partition
/// and is formatted only right after the user confirmed formatting it;
/// [`efi_given`] holds from the start of disk setup on.
pub proof fn law_given_efi_needs_consent(s: DiskSetupView, e: EventView, g: Option<Seq<char>>)
    requires
        efi_given(s, g),
    ensures
        efi_given(DiskSetupView::Start, None),
        efi_given(disk_next(s, e).0, given_after(s, e, g)),
        g matches Some(p) ==> (runs(disk_next(s, e).1.1, |c: CmdView| is_efi_mkfs(c)) ==> (s is EfiFormatAsked
            && e == EventView::Answer(true) && (disk_next(s, e).0 matches DiskSetupView::EfiFormatting(c)
            && c.efi == p))),
{
    lemma_efi_given_step(s, e, g);
    law_reused_efi_needs_consent(s, e);
}
} // verus!
