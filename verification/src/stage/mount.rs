//! Mounting the target: root, BTRFS subvolumes, EFI, and the stale
//! firmware boot entries of earlier installs.

use vstd::prelude::*;
use vstd::utf8::{decode_utf8, encode_utf8, is_char_boundary};
use vstd::string::StringSliceAdditionalSpecFns;
use crate::context::{target_join, ContextView, InstallContext, TARGET};
use crate::text::{
    contains, find_char, first_index_of, has_prefix, has_substring, lines, split_lines,
    starts_with, string_views,
};
use crate::error::{output_view, ErrorView, InstallError};
use crate::interact::{note, note_views, one_note, Ask, AskView, CmdView, Note};
use crate::text::ends_with;
use crate::types::FsType;
use crate::ui::Level;
use crate::util::command::Cmd;

verus! {

/// The `mount` invocation for the root filesystem.
pub open spec fn root_mount(ctx: ContextView) -> (Seq<char>, Seq<Seq<char>>) {
    if ctx.fs_type == FsType::Btrfs {
        ("mount"@, seq!["-o"@, FsType::Btrfs.root_mount_opts(), ctx.root_device, "/mnt"@])
    } else {
        ("mount"@, seq![ctx.root_device, "/mnt"@])
    }
}

/// Mount the root subvolume or partition at the target.
pub fn mount_root(ctx: &InstallContext) -> (r: Cmd)
    ensures
        r@ == root_mount(ctx@),
{
    if ctx.fs_type == FsType::Btrfs {
        let opts = ctx.fs_type.mount_opts();
        let r = Cmd::new("mount", &["-o", opts, ctx.root_device.as_str(), TARGET]);
        assert(r@.1 =~= seq!["-o"@, FsType::Btrfs.root_mount_opts(), ctx.root_device@, "/mnt"@]);
        r
    } else {
        let r = Cmd::new("mount", &[ctx.root_device.as_str(), TARGET]);
        assert(r@.1 =~= seq![ctx.root_device@, "/mnt"@]);
        r
    }
}

/// A directory to create, then a `mount` onto it, announced by a line.
#[derive(Debug)]
pub struct DirMount {
    pub note: String,
    pub dir: String,
    pub cmd: Cmd,
}

pub type DirMountView = (Seq<char>, Seq<char>, (Seq<char>, Seq<Seq<char>>));

impl View for DirMount {
    type V = DirMountView;

    open spec fn view(&self) -> DirMountView {
        (self.note@, self.dir@, self.cmd@)
    }
}

pub open spec fn dir_mount_views(v: Seq<DirMount>) -> Seq<DirMountView> {
    v.map_values(|m: DirMount| m@)
}

pub open spec fn subvol_mount(root_device: Seq<char>, name: Seq<char>, mountpoint: Seq<char>) -> DirMountView {
    (
        "Mounting subvol "@ + name + " at "@ + target_join(mountpoint) + "..."@,
        target_join(mountpoint),
        ("mount"@, seq![
            "-o"@,
            "defaults,compress=zstd,space_cache=v2,subvol="@ + name,
            root_device,
            target_join(mountpoint),
        ]),
    )
}

/// One mount per subvolume that is not the root one.
pub open spec fn subvol_mounts(svs: Seq<(Seq<char>, Seq<char>)>, root_device: Seq<char>) -> Seq<
    DirMountView,
>
    decreases svs.len(),
{
    if svs.len() == 0 {
        seq![]
    } else {
        let rest = subvol_mounts(svs.drop_last(), root_device);
        let sv = svs.last();
        if sv.1.len() == 0 {
            rest
        } else {
            rest.push(subvol_mount(root_device, sv.0, sv.1))
        }
    }
}

/// Mount non-root BTRFS subvolumes (e.g. @home, @log, @cache, @snapshots).
pub fn mount_btrfs_subvolumes(ctx: &InstallContext, layout: crate::types::BtrfsLayout) -> (r: Vec<
    DirMount,
>)
    ensures
        dir_mount_views(r@) == subvol_mounts(layout.subvolume_specs(), ctx.root_device@),
{
    let svs = layout.subvolumes();
    let ghost specs = layout.subvolume_specs();
    let mut out: Vec<DirMount> = Vec::new();
    let mut i: usize = 0;
    assert(dir_mount_views(out@) =~= subvol_mounts(specs.subrange(0, 0), ctx.root_device@));
    while i < svs.len()
        invariant
            i <= svs@.len(),
            crate::types::subvol_views(svs@) == specs,
            dir_mount_views(out@) == subvol_mounts(specs.subrange(0, i as int), ctx.root_device@),
        decreases svs@.len() - i,
    {
        let sv = svs[i];
        proof {
            assert(specs.subrange(0, i + 1).drop_last() =~= specs.subrange(0, i as int));
            assert(specs[i as int] == (sv.name@, sv.mountpoint@));
        }
        if sv.mountpoint.unicode_len() != 0 {
            let dir = ctx.target_path(sv.mountpoint);
            let opts = ctx.fs_type.subvol_mount_opts(sv.name);
            let cmd = Cmd::new(
                "mount",
                &["-o", opts.as_str(), ctx.root_device.as_str(), dir.as_str()],
            );
            let mut note = String::from_str("Mounting subvol ");
            note.append(sv.name);
            note.append(" at ");
            note.append(dir.as_str());
            note.append("...");
            let ghost before = out@;
            let m = DirMount { note, dir, cmd };
            proof {
                assert(m@.2.1 =~= subvol_mount(ctx.root_device@, sv.name@, sv.mountpoint@).2.1);
                assert(m@.0 =~= subvol_mount(ctx.root_device@, sv.name@, sv.mountpoint@).0);
            }
            out.push(m);
            proof {
                assert(dir_mount_views(out@) =~= dir_mount_views(before).push(m@));
            }
        }
        i += 1;
    }
    assert(specs.subrange(0, svs@.len() as int) =~= specs);
    out
}

/// The mounts of the mounting stage, in order: root, then the other BTRFS
/// subvolumes, then the EFI partition; each announced by a line.
#[derive(Debug)]
pub struct MountPlan {
    pub root_note: String,
    pub root: Cmd,
    pub subvolumes: Vec<DirMount>,
    pub efi: DirMount,
    /// Where an earlier install's bootloader files would be.
    pub void_efi_dir: String,
}

pub struct MountPlanView {
    pub root_note: Seq<char>,
    pub root: (Seq<char>, Seq<Seq<char>>),
    pub subvolumes: Seq<DirMountView>,
    pub efi: DirMountView,
    pub void_efi_dir: Seq<char>,
}

impl View for MountPlan {
    type V = MountPlanView;

    open spec fn view(&self) -> MountPlanView {
        MountPlanView {
            root_note: self.root_note@,
            root: self.root@,
            subvolumes: dir_mount_views(self.subvolumes@),
            efi: self.efi@,
            void_efi_dir: self.void_efi_dir@,
        }
    }
}

/// Where an earlier install's bootloader files would be.
pub open spec fn void_efi_dir() -> Seq<char> {
    target_join("boot/efi/EFI/Void"@)
}

/// Where and how each filesystem of `ctx` is mounted.
pub open spec fn plan_of(ctx: ContextView) -> MountPlanView {
    MountPlanView {
        root_note: "Mounting "@ + ctx.root_device + " at "@ + "/mnt"@ + "..."@,
        root: root_mount(ctx),
        subvolumes: match ctx.btrfs_layout {
            Some(l) => subvol_mounts(l.subvolume_specs(), ctx.root_device),
            None => seq![],
        },
        efi: (
            "Mounting "@ + ctx.efi_device + " at "@ + target_join("boot/efi"@) + "..."@,
            target_join("boot/efi"@),
            ("mount"@, seq![ctx.efi_device, target_join("boot/efi"@)]),
        ),
        void_efi_dir: void_efi_dir(),
    }
}

/// Where and how each filesystem of `ctx` is mounted.
pub fn mount_plan(ctx: &InstallContext) -> (r: MountPlan)
    ensures
        r@ == plan_of(ctx@),
{
    let subvolumes = match ctx.btrfs_layout {
        Some(l) => mount_btrfs_subvolumes(ctx, l),
        None => {
            let v: Vec<DirMount> = Vec::new();
            assert(dir_mount_views(v@) =~= Seq::empty());
            v
        },
    };
    let efi_dir = ctx.target_path("boot/efi");
    let efi_cmd = Cmd::new("mount", &[ctx.efi_device.as_str(), efi_dir.as_str()]);
    assert(efi_cmd@.1 =~= seq![ctx.efi_device@, target_join("boot/efi"@)]);
    let mut efi_note = String::from_str("Mounting ");
    efi_note.append(ctx.efi_device.as_str());
    efi_note.append(" at ");
    efi_note.append(efi_dir.as_str());
    efi_note.append("...");
    let mut root_note = String::from_str("Mounting ");
    root_note.append(ctx.root_device.as_str());
    root_note.append(" at ");
    root_note.append(TARGET);
    root_note.append("...");
    let r = MountPlan {
        root_note,
        root: mount_root(ctx),
        subvolumes,
        efi: DirMount { note: efi_note, dir: efi_dir, cmd: efi_cmd },
        void_efi_dir: ctx.target_path("boot/efi/EFI/Void"),
    };
    assert(r@.efi =~= plan_of(ctx@).efi);
    assert(r@.root_note =~= plan_of(ctx@).root_note);
    r
}

// ── Stale firmware boot entries ─────────────────────────────────

pub open spec fn is_stale_entry(line: Seq<char>) -> bool {
    starts_with(line, "Boot"@) && contains(line, "Void"@)
}

/// The lines of `efibootmgr` output that are boot entries naming Void.
pub open spec fn stale_entries(ls: Seq<Seq<char>>) -> Seq<Seq<char>>
    decreases ls.len(),
{
    if ls.len() == 0 {
        seq![]
    } else if is_stale_entry(ls.last()) {
        stale_entries(ls.drop_last()).push(ls.last())
    } else {
        stale_entries(ls.drop_last())
    }
}

/// The boot entries for Void in the output of `efibootmgr`.
pub fn stale_void_entries(efibootmgr_output: &str) -> (r: Vec<String>)
    ensures
        string_views(r@) == stale_entries(lines(efibootmgr_output@)),
{
    let ls = split_lines(efibootmgr_output);
    let ghost src = lines(efibootmgr_output@);
    let mut out: Vec<String> = Vec::new();
    let mut i: usize = 0;
    assert(string_views(out@) =~= stale_entries(src.subrange(0, 0)));
    while i < ls.len()
        invariant
            i <= ls@.len(),
            string_views(ls@) == src,
            string_views(out@) == stale_entries(src.subrange(0, i as int)),
        decreases ls@.len() - i,
    {
        proof {
            assert(src.subrange(0, i + 1).drop_last() =~= src.subrange(0, i as int));
            assert(src[i as int] == ls@[i as int]@);
        }
        let line = ls[i].as_str();
        if has_prefix(line, "Boot") && has_substring(line, "Void") {
            let ghost before = out@;
            out.push(String::from_str(line));
            proof {
                assert(string_views(out@) =~= string_views(before).push(line@));
            }
        }
        i += 1;
    }
    assert(src.subrange(0, ls@.len() as int) =~= src);
    out
}

/// The firmware cleanup only ever offers entries of Void: every entry it
/// picks is a `Boot` line of the listing that names Void, and every such
/// line is picked, in the listing's order.
pub proof fn law_stale_entries_name_void(ls: Seq<Seq<char>>)
    ensures
        forall|i: int|
            0 <= i < stale_entries(ls).len() ==> #[trigger] is_stale_entry(stale_entries(ls)[i])
                && ls.contains(stale_entries(ls)[i]),
        stale_entries(ls) == ls.filter(|l: Seq<char>| is_stale_entry(l)),
    decreases ls.len(),
{
    if ls.len() > 0 {
        law_stale_entries_name_void(ls.drop_last());
        let rest = stale_entries(ls.drop_last());
        assert forall|i: int| 0 <= i < stale_entries(ls).len() implies #[trigger] is_stale_entry(
            stale_entries(ls)[i],
        ) && ls.contains(stale_entries(ls)[i]) by {
            if i < rest.len() {
                let k = choose|k: int| 0 <= k < ls.drop_last().len() && ls.drop_last()[k] == rest[i];
                assert(ls[k] == rest[i]);
            } else {
                assert(ls[ls.len() - 1] == ls.last());
            }
        }
        assert(ls.drop_last().push(ls.last()) =~= ls);
        ls.drop_last().lemma_filter_push(ls.last(), |l: Seq<char>| is_stale_entry(l));
    } else {
        assert(ls.filter(|l: Seq<char>| is_stale_entry(l)) =~= Seq::<Seq<char>>::empty());
    }
}

/// The part of a boot entry before its first `*`.
pub open spec fn entry_head(entry: Seq<char>) -> Seq<char> {
    match first_index_of(entry, '*') {
        Some(k) => entry.subrange(0, k),
        None => entry,
    }
}

/// Taking bytes 4 to 8 of the entry's head needs both to lie between
/// characters.
pub open spec fn boot_number_defined(entry: Seq<char>) -> bool {
    encode_utf8(entry_head(entry)).len() >= 8 ==> {
        &&& is_char_boundary(encode_utf8(entry_head(entry)), 4)
        &&& is_char_boundary(encode_utf8(entry_head(entry)), 8)
    }
}

fn head_of(entry: &str) -> (r: &str)
    ensures
        r@ == entry_head(entry@),
{
    match find_char(entry, '*') {
        Some(k) => entry.substring_char(0, k),
        None => entry,
    }
}

/// Whether [`boot_number`] may be asked for `entry`.
pub fn boot_number_checkable(entry: &str) -> (r: bool)
    ensures
        r == boot_number_defined(entry@),
{
    let head = head_of(entry);
    if head.as_bytes().len() >= 8 {
        head.is_char_boundary(4) && head.is_char_boundary(8)
    } else {
        true
    }
}

/// The characters that bytes 4 to 8 of an entry's head encode.
pub open spec fn boot_digits(entry: Seq<char>) -> Seq<char> {
    decode_utf8(encode_utf8(entry_head(entry)).subrange(4, 8))
}

/// The four-digit boot number of a `BootXXXX* ...` entry: bytes 4 to 8 of
/// the part before `*`, when that part has at least 8 bytes.
pub fn boot_number(entry: &str) -> (r: Option<String>)
    requires
        boot_number_defined(entry@),
    ensures
        r is Some <==> encode_utf8(entry_head(entry@)).len() >= 8,
        r matches Some(n) ==> encode_utf8(n@) == encode_utf8(entry_head(entry@)).subrange(4, 8)
            && n@ == boot_digits(entry@),
{
    let head = head_of(entry);
    if head.as_bytes().len() >= 8 {
        let (first8, _) = head.split_at(8);
        proof {
            let hb = encode_utf8(head@);
            let fb = first8.spec_bytes();
            vstd::utf8::encode_utf8_valid_utf8(head@);
            vstd::utf8::encode_utf8_valid_utf8(first8@);
            vstd::utf8::is_char_boundary_iff_not_is_continuation_byte(hb, 4);
            vstd::utf8::is_char_boundary_iff_not_is_continuation_byte(fb, 4);
            assert(fb[4] == hb[4]);
        }
        let (_, num) = first8.split_at(4);
        let r = String::from_str(num);
        assert(encode_utf8(r@) =~= encode_utf8(entry_head(entry@)).subrange(4, 8));
        proof {
            vstd::utf8::encode_utf8_decode_utf8(r@);
        }
        Some(r)
    } else {
        None
    }
}

/// The `efibootmgr` call that deletes boot entry `num`.
pub fn delete_boot_entry(num: &str) -> (r: Cmd)
    ensures
        r@ == ("efibootmgr"@, seq!["-b"@, num@, "-B"@, "-q"@]),
{
    let r = Cmd::new("efibootmgr", &["-b", num, "-B", "-q"]);
    assert(r@.1 =~= seq!["-b"@, num@, "-B"@, "-q"@]);
    r
}

// ── The mounting stage ──────────────────────────────────────────

/// Where the firmware exposes its variables; without them there is no boot
/// menu to clean up.
pub const EFIVARS: &'static str = "/sys/firmware/efi/efivars";

pub open spec fn unmount_prompt() -> Seq<char> {
    "/mnt is already mounted (likely from a previous run). Auto-unmount it now?"@
}

pub open spec fn void_dir_prompt() -> Seq<char> {
    "Detected existing Void Linux bootloader files in the EFI partition. Remove them to ensure a clean install?"@
}

pub open spec fn stale_prompt() -> Seq<char> {
    "Remove these specific 'Void' entries from the motherboard UEFI boot menu?"@
}

/// Where the mounting stage stands: which outcome or answer it waits for.
#[derive(Debug)]
pub enum MountStage {
    Start,
    /// Asked whether the target is mounted already.
    Probing,
    UnmountAsked,
    Unmounting,
    /// Asked again, after `umount -R`.
    Reprobing,
    Mounting,
    VoidDirChecking,
    VoidDirAsked,
    VoidDirRemoving,
    EfiVarsChecking,
    Listing,
    /// With the stale boot entries shown to the user.
    StaleAsked(Vec<String>),
    /// Deleting the stale boot entries, at the given one.
    Deleting(Vec<String>, usize),
    Over,
}

pub enum MountStageView {
    Start,
    Probing,
    UnmountAsked,
    Unmounting,
    Reprobing,
    Mounting,
    VoidDirChecking,
    VoidDirAsked,
    VoidDirRemoving,
    EfiVarsChecking,
    Listing,
    StaleAsked(Seq<Seq<char>>),
    Deleting(Seq<Seq<char>>, nat),
    Over,
}

impl View for MountStage {
    type V = MountStageView;

    open spec fn view(&self) -> MountStageView {
        match self {
            MountStage::Start => MountStageView::Start,
            MountStage::Probing => MountStageView::Probing,
            MountStage::UnmountAsked => MountStageView::UnmountAsked,
            MountStage::Unmounting => MountStageView::Unmounting,
            MountStage::Reprobing => MountStageView::Reprobing,
            MountStage::Mounting => MountStageView::Mounting,
            MountStage::VoidDirChecking => MountStageView::VoidDirChecking,
            MountStage::VoidDirAsked => MountStageView::VoidDirAsked,
            MountStage::VoidDirRemoving => MountStageView::VoidDirRemoving,
            MountStage::EfiVarsChecking => MountStageView::EfiVarsChecking,
            MountStage::Listing => MountStageView::Listing,
            MountStage::StaleAsked(es) => MountStageView::StaleAsked(string_views(es@)),
            MountStage::Deleting(es, k) => MountStageView::Deleting(string_views(es@), *k as nat),
            MountStage::Over => MountStageView::Over,
        }
    }
}

/// What came of the last action of the mounting stage.
#[derive(Debug)]
pub enum MountEvent {
    /// The stage begins.
    Start,
    /// A query ran: its output, or the message of its failure.
    Output(Result<String, String>),
    Done,
    Failed(String),
    /// The user's yes or no.
    Answer(bool),
    /// Whether the path asked about exists.
    Exists(bool),
}

pub enum MountEventView {
    Start,
    Output(Result<Seq<char>, Seq<char>>),
    Done,
    Failed(Seq<char>),
    Answer(bool),
    Exists(bool),
}

impl View for MountEvent {
    type V = MountEventView;

    open spec fn view(&self) -> MountEventView {
        match self {
            MountEvent::Start => MountEventView::Start,
            MountEvent::Output(o) => MountEventView::Output(output_view(o)),
            MountEvent::Done => MountEventView::Done,
            MountEvent::Failed(m) => MountEventView::Failed(m@),
            MountEvent::Answer(b) => MountEventView::Answer(*b),
            MountEvent::Exists(b) => MountEventView::Exists(*b),
        }
    }
}

/// What the terminal must do next in the mounting stage.
#[derive(Debug)]
pub enum MountAction {
    /// Run the command; answered by `MountEvent::Output`.
    Query(Cmd),
    /// Answered by `MountEvent::Answer`.
    Ask(Ask),
    /// Run the command, whatever comes of it; answered by `MountEvent::Done`.
    RunIgnoringFailure(Cmd),
    /// The mounts of the plan in order, each announced by its line and
    /// preceded by creating its directory; answered by `MountEvent::Done`,
    /// or `MountEvent::Failed` at the first failure.
    Mount(MountPlan),
    /// Whether the path exists; answered by `MountEvent::Exists`.
    Exists(String),
    /// Remove the directory tree at `path`; answered by `MountEvent::Done`,
    /// or `MountEvent::Failed` with `failure_context` before the cause.
    RemoveDir { path: String, failure_context: String },
    /// The stage is over.
    Finish,
    Fail(InstallError),
    /// Stop the process: the boot number of this entry would be cut out of
    /// the middle of a character.
    Abort(String),
}

pub enum MountActionView {
    Query(CmdView),
    Ask(AskView),
    RunIgnoringFailure(CmdView),
    Mount(MountPlanView),
    Exists(Seq<char>),
    RemoveDir(Seq<char>, Seq<char>),
    Finish,
    Fail(ErrorView),
    Abort(Seq<char>),
}

impl View for MountAction {
    type V = MountActionView;

    open spec fn view(&self) -> MountActionView {
        match self {
            MountAction::Query(c) => MountActionView::Query(c@),
            MountAction::Ask(a) => MountActionView::Ask(a@),
            MountAction::RunIgnoringFailure(c) => MountActionView::RunIgnoringFailure(c@),
            MountAction::Mount(p) => MountActionView::Mount(p@),
            MountAction::Exists(p) => MountActionView::Exists(p@),
            MountAction::RemoveDir { path, failure_context } => MountActionView::RemoveDir(
                path@,
                failure_context@,
            ),
            MountAction::Finish => MountActionView::Finish,
            MountAction::Fail(e) => MountActionView::Fail(e.view()),
            MountAction::Abort(e) => MountActionView::Abort(e@),
        }
    }
}

/// Lines to print, then an action.
#[derive(Debug)]
pub struct MountStep {
    pub notes: Vec<Note>,
    pub action: MountAction,
}

pub type MountStepView = (Seq<(Level, Seq<char>)>, MountActionView);

impl View for MountStep {
    type V = MountStepView;

    open spec fn view(&self) -> MountStepView {
        (note_views(self.notes@), self.action@)
    }
}

pub open spec fn probe_cmd() -> CmdView {
    ("findmnt"@, seq!["-M"@, "/mnt"@])
}

pub open spec fn unmount_cmd() -> CmdView {
    ("umount"@, seq!["-R"@, "/mnt"@])
}

pub open spec fn boot_listing_cmd() -> CmdView {
    ("efibootmgr"@, seq![])
}

pub open spec fn delete_cmd(num: Seq<char>) -> CmdView {
    ("efibootmgr"@, seq!["-b"@, num, "-B"@, "-q"@])
}

pub open spec fn finish_mounting() -> (MountStageView, MountStepView) {
    (MountStageView::Over, (seq![(Level::Success, "Partitions mounted."@)], MountActionView::Finish))
}

pub open spec fn check_efivars(notes: Seq<(Level, Seq<char>)>) -> (MountStageView, MountStepView) {
    (MountStageView::EfiVarsChecking, (notes, MountActionView::Exists(EFIVARS@)))
}

pub open spec fn mount_fail(e: ErrorView) -> (MountStageView, MountStepView) {
    (MountStageView::Over, (seq![], MountActionView::Fail(e)))
}

/// Deleting the stale entries from the `k`-th on: entries too short for a
/// boot number are passed over; one whose boot number would split a
/// character stops the process.
pub open spec fn delete_from(es: Seq<Seq<char>>, k: nat) -> (MountStageView, MountStepView)
    decreases es.len() - k,
{
    if k >= es.len() {
        finish_mounting()
    } else if !boot_number_defined(es[k as int]) {
        (MountStageView::Over, (seq![], MountActionView::Abort(es[k as int])))
    } else if encode_utf8(entry_head(es[k as int])).len() >= 8 {
        let num = boot_digits(es[k as int]);
        (
            MountStageView::Deleting(es, k),
            (
                seq![(Level::Status, "Removing NVRAM entry "@ + num + "..."@)],
                MountActionView::RunIgnoringFailure(delete_cmd(num)),
            ),
        )
    } else {
        delete_from(es, k + 1)
    }
}

pub open spec fn stale_notes(es: Seq<Seq<char>>) -> Seq<(Level, Seq<char>)> {
    seq![(Level::Info, "Found the following stale 'Void' entries in the UEFI boot menu:"@)]
        + es.map_values(|e: Seq<char>| (Level::Info, "  "@ + e))
}

/// One step of the mounting stage.
pub open spec fn mount_next(ctx: ContextView, s: MountStageView, e: MountEventView) -> (
    MountStageView,
    MountStepView,
) {
    match (s, e) {
        (MountStageView::Start, MountEventView::Start) => (
            MountStageView::Probing,
            (seq![], MountActionView::Query(probe_cmd())),
        ),
        (MountStageView::Probing, MountEventView::Output(o)) => if o is Ok {
            (
                MountStageView::UnmountAsked,
                (seq![], MountActionView::Ask(AskView::Confirm(unmount_prompt(), true))),
            )
        } else {
            (MountStageView::Mounting, (seq![], MountActionView::Mount(plan_of(ctx))))
        },
        (MountStageView::UnmountAsked, MountEventView::Answer(b)) => if b {
            (
                MountStageView::Unmounting,
                (
                    seq![(Level::Status, "Unmounting lingering partitions..."@)],
                    MountActionView::RunIgnoringFailure(unmount_cmd()),
                ),
            )
        } else {
            mount_fail(ErrorView::TargetMounted)
        },
        (MountStageView::Unmounting, MountEventView::Done) => (
            MountStageView::Reprobing,
            (seq![], MountActionView::Query(probe_cmd())),
        ),
        (MountStageView::Reprobing, MountEventView::Output(o)) => if o is Ok {
            mount_fail(ErrorView::UnmountIncomplete)
        } else {
            (MountStageView::Mounting, (seq![], MountActionView::Mount(plan_of(ctx))))
        },
        (MountStageView::Mounting, MountEventView::Done) => (
            MountStageView::VoidDirChecking,
            (seq![], MountActionView::Exists(void_efi_dir())),
        ),
        (MountStageView::Mounting, MountEventView::Failed(m)) => mount_fail(
            ErrorView::CommandFailed(m),
        ),
        (MountStageView::VoidDirChecking, MountEventView::Exists(x)) => if x {
            (
                MountStageView::VoidDirAsked,
                (seq![], MountActionView::Ask(AskView::Confirm(void_dir_prompt(), true))),
            )
        } else {
            check_efivars(seq![])
        },
        (MountStageView::VoidDirAsked, MountEventView::Answer(b)) => if !b {
            check_efivars(seq![])
        } else if ends_with(void_efi_dir(), "/EFI/Void"@) {
            (
                MountStageView::VoidDirRemoving,
                (
                    seq![(Level::Status, "Cleaning up old EFI/Void directory..."@)],
                    MountActionView::RemoveDir(void_efi_dir(), "Failed to remove old EFI directory"@),
                ),
            )
        } else {
            check_efivars(
                seq![
                    (
                        Level::Warning,
                        "Safety check failed: Path does not end with EFI/Void. Skipping cleanup."@,
                    ),
                ],
            )
        },
        (MountStageView::VoidDirRemoving, MountEventView::Done) => check_efivars(seq![]),
        (MountStageView::VoidDirRemoving, MountEventView::Failed(m)) => mount_fail(
            ErrorView::CommandFailed(m),
        ),
        (MountStageView::EfiVarsChecking, MountEventView::Exists(x)) => if x {
            (MountStageView::Listing, (seq![], MountActionView::Query(boot_listing_cmd())))
        } else {
            finish_mounting()
        },
        (MountStageView::Listing, MountEventView::Output(o)) => match o {
            Ok(out) => {
                let es = stale_entries(lines(out));
                if es.len() == 0 {
                    finish_mounting()
                } else {
                    (
                        MountStageView::StaleAsked(es),
                        (stale_notes(es), MountActionView::Ask(AskView::Confirm(stale_prompt(), true))),
                    )
                }
            },
            Err(_) => finish_mounting(),
        },
        (MountStageView::StaleAsked(es), MountEventView::Answer(b)) => if b {
            delete_from(es, 0)
        } else {
            finish_mounting()
        },
        (MountStageView::Deleting(es, k), MountEventView::Done) => delete_from(es, k + 1),
        _ => mount_fail(ErrorView::UnexpectedEvent),
    }
}

fn mount_quiet(action: MountAction) -> (r: MountStep)
    ensures
        r@ == (Seq::<(Level, Seq<char>)>::empty(), action@),
{
    let notes: Vec<Note> = Vec::new();
    assert(note_views(notes@) =~= Seq::<(Level, Seq<char>)>::empty());
    MountStep { notes, action }
}

fn mount_noted(level: Level, text: &str, action: MountAction) -> (r: MountStep)
    ensures
        r@ == (seq![(level, text@)], action@),
{
    MountStep { notes: one_note(note(level, String::from_str(text))), action }
}

fn confirm(prompt: &str) -> (r: MountAction)
    ensures
        r@ == MountActionView::Ask(AskView::Confirm(prompt@, true)),
{
    MountAction::Ask(Ask::Confirm { prompt: String::from_str(prompt), default: true })
}

fn probe() -> (r: MountAction)
    ensures
        r@ == MountActionView::Query(probe_cmd()),
{
    let c = Cmd::new("findmnt", &["-M", TARGET]);
    assert(c@.1 =~= probe_cmd().1);
    MountAction::Query(c)
}

fn exec_check_efivars(notes: Vec<Note>) -> (r: (MountStage, MountStep))
    ensures
        (r.0@, r.1@) == check_efivars(note_views(notes@)),
{
    (
        MountStage::EfiVarsChecking,
        MountStep { notes, action: MountAction::Exists(String::from_str(EFIVARS)) },
    )
}

fn exec_finish() -> (r: (MountStage, MountStep))
    ensures
        (r.0@, r.1@) == finish_mounting(),
{
    (MountStage::Over, mount_noted(Level::Success, "Partitions mounted.", MountAction::Finish))
}

fn exec_fail(e: InstallError) -> (r: (MountStage, MountStep))
    ensures
        (r.0@, r.1@) == mount_fail(e.view()),
{
    (MountStage::Over, mount_quiet(MountAction::Fail(e)))
}

fn exec_delete_from(es: Vec<String>, k: usize) -> (r: (MountStage, MountStep))
    ensures
        (r.0@, r.1@) == delete_from(string_views(es@), k as nat),
{
    let ghost v = string_views(es@);
    let mut j: usize = k;
    while j < es.len()
        invariant
            v == string_views(es@),
            k <= j,
            delete_from(v, k as nat) == delete_from(v, j as nat),
        decreases es@.len() - j,
    {
        assert(v[j as int] == es@[j as int]@);
        let entry = es[j].as_str();
        if !boot_number_checkable(entry) {
            return (MountStage::Over, mount_quiet(MountAction::Abort(String::from_str(entry))));
        }
        match boot_number(entry) {
            Some(num) => {
                let mut text = String::from_str("Removing NVRAM entry ");
                text.append(num.as_str());
                text.append("...");
                let cmd = delete_boot_entry(num.as_str());
                let step = MountStep {
                    notes: one_note(note(Level::Status, text)),
                    action: MountAction::RunIgnoringFailure(cmd),
                };
                return (MountStage::Deleting(es, j), step);
            },
            None => {},
        }
        j += 1;
    }
    exec_finish()
}

fn exec_stale_notes(es: &Vec<String>) -> (r: Vec<Note>)
    ensures
        note_views(r@) == stale_notes(string_views(es@)),
{
    let mut r = one_note(
        note(
            Level::Info,
            String::from_str("Found the following stale 'Void' entries in the UEFI boot menu:"),
        ),
    );
    let ghost head = note_views(r@);
    let mut i: usize = 0;
    while i < es.len()
        invariant
            i <= es@.len(),
            note_views(r@) == head + string_views(es@).subrange(0, i as int).map_values(
                |e: Seq<char>| (Level::Info, "  "@ + e),
            ),
        decreases es@.len() - i,
    {
        let ghost before = r@;
        let text = crate::text::cat("  ", es[i].as_str());
        r.push(note(Level::Info, text));
        proof {
            assert(note_views(r@) =~= note_views(before).push(r@.last()@));
            assert(string_views(es@).subrange(0, i + 1) =~= string_views(es@).subrange(
                0,
                i as int,
            ).push(es@[i as int]@));
            assert(note_views(r@) =~= head + string_views(es@).subrange(0, i + 1).map_values(
                |e: Seq<char>| (Level::Info, "  "@ + e),
            ));
        }
        i += 1;
    }
    assert(string_views(es@).subrange(0, es@.len() as int) =~= string_views(es@));
    r
}

/// One step of the mounting stage: from where it stands and what came of
/// the last action (`MountEvent::Start` at first), the next state and what
/// to do. If the target is mounted already, it is unmounted only with the
/// user's consent, and the stage fails when that is refused or does not
/// take; then root, the other BTRFS subvolumes and the EFI partition are
/// mounted; bootloader files of an earlier install are removed, and the
/// firmware boot entries naming Void deleted, each only after the user
/// agreed.
pub fn run(ctx: &InstallContext, state: MountStage, event: MountEvent) -> (r: (MountStage, MountStep))
    ensures
        (r.0@, r.1@) == mount_next(ctx@, state@, event@),
{
    match state {
        MountStage::Start => match event {
            MountEvent::Start => (MountStage::Probing, mount_quiet(probe())),
            _ => exec_fail(InstallError::UnexpectedEvent),
        },
        MountStage::Probing => match event {
            MountEvent::Output(o) => if o.is_ok() {
                (
                    MountStage::UnmountAsked,
                    mount_quiet(
                        confirm("/mnt is already mounted (likely from a previous run). Auto-unmount it now?"),
                    ),
                )
            } else {
                (MountStage::Mounting, mount_quiet(MountAction::Mount(mount_plan(ctx))))
            },
            _ => exec_fail(InstallError::UnexpectedEvent),
        },
        MountStage::UnmountAsked => match event {
            MountEvent::Answer(b) => if b {
                let c = Cmd::new("umount", &["-R", TARGET]);
                assert(c@.1 =~= unmount_cmd().1);
                (
                    MountStage::Unmounting,
                    mount_noted(
                        Level::Status,
                        "Unmounting lingering partitions...",
                        MountAction::RunIgnoringFailure(c),
                    ),
                )
            } else {
                exec_fail(InstallError::TargetMounted)
            },
            _ => exec_fail(InstallError::UnexpectedEvent),
        },
        MountStage::Unmounting => match event {
            MountEvent::Done => (MountStage::Reprobing, mount_quiet(probe())),
            _ => exec_fail(InstallError::UnexpectedEvent),
        },
        MountStage::Reprobing => match event {
            MountEvent::Output(o) => if o.is_ok() {
                exec_fail(InstallError::UnmountIncomplete)
            } else {
                (MountStage::Mounting, mount_quiet(MountAction::Mount(mount_plan(ctx))))
            },
            _ => exec_fail(InstallError::UnexpectedEvent),
        },
        MountStage::Mounting => match event {
            MountEvent::Done => (
                MountStage::VoidDirChecking,
                mount_quiet(MountAction::Exists(ctx.target_path("boot/efi/EFI/Void"))),
            ),
            MountEvent::Failed(m) => exec_fail(InstallError::CommandFailed(m)),
            _ => exec_fail(InstallError::UnexpectedEvent),
        },
        MountStage::VoidDirChecking => match event {
            MountEvent::Exists(x) => if x {
                (
                    MountStage::VoidDirAsked,
                    mount_quiet(
                        confirm(
                            "Detected existing Void Linux bootloader files in the EFI partition. Remove them to ensure a clean install?",
                        ),
                    ),
                )
            } else {
                exec_check_efivars(Vec::new())
            },
            _ => exec_fail(InstallError::UnexpectedEvent),
        },
        MountStage::VoidDirAsked => match event {
            MountEvent::Answer(b) => {
                if !b {
                    exec_check_efivars(Vec::new())
                } else {
                    let dir = ctx.target_path("boot/efi/EFI/Void");
                    if crate::text::has_suffix(dir.as_str(), "/EFI/Void") {
                        (
                            MountStage::VoidDirRemoving,
                            mount_noted(
                                Level::Status,
                                "Cleaning up old EFI/Void directory...",
                                MountAction::RemoveDir {
                                    path: dir,
                                    failure_context: String::from_str(
                                        "Failed to remove old EFI directory",
                                    ),
                                },
                            ),
                        )
                    } else {
                        exec_check_efivars(
                            one_note(
                                note(
                                    Level::Warning,
                                    String::from_str(
                                        "Safety check failed: Path does not end with EFI/Void. Skipping cleanup.",
                                    ),
                                ),
                            ),
                        )
                    }
                }
            },
            _ => exec_fail(InstallError::UnexpectedEvent),
        },
        MountStage::VoidDirRemoving => match event {
            MountEvent::Done => exec_check_efivars(Vec::new()),
            MountEvent::Failed(m) => exec_fail(InstallError::CommandFailed(m)),
            _ => exec_fail(InstallError::UnexpectedEvent),
        },
        MountStage::EfiVarsChecking => match event {
            MountEvent::Exists(x) => if x {
                let c = Cmd::new("efibootmgr", &[]);
                assert(c@.1 =~= boot_listing_cmd().1);
                (MountStage::Listing, mount_quiet(MountAction::Query(c)))
            } else {
                exec_finish()
            },
            _ => exec_fail(InstallError::UnexpectedEvent),
        },
        MountStage::Listing => match event {
            MountEvent::Output(o) => match o {
                Ok(out) => {
                    let es = stale_void_entries(out.as_str());
                    if es.len() == 0 {
                        exec_finish()
                    } else {
                        let notes = exec_stale_notes(&es);
                        let a = confirm(
                            "Remove these specific 'Void' entries from the motherboard UEFI boot menu?",
                        );
                        (MountStage::StaleAsked(es), MountStep { notes, action: a })
                    }
                },
                Err(_) => exec_finish(),
            },
            _ => exec_fail(InstallError::UnexpectedEvent),
        },
        MountStage::StaleAsked(es) => match event {
            MountEvent::Answer(b) => if b {
                exec_delete_from(es, 0)
            } else {
                exec_finish()
            },
            _ => exec_fail(InstallError::UnexpectedEvent),
        },
        MountStage::Deleting(es, k) => match event {
            MountEvent::Done => if k >= es.len() {
                exec_finish()
            } else {
                exec_delete_from(es, k + 1)
            },
            _ => exec_fail(InstallError::UnexpectedEvent),
        },
        MountStage::Over => exec_fail(InstallError::UnexpectedEvent),
    }
}

// ── Laws of the mounting stage ──────────────────────────────────

/// The boot entries that the stage carries are stale Void entries, and the
/// one being deleted is one of them.
pub open spec fn mount_inv(s: MountStageView) -> bool {
    match s {
        MountStageView::StaleAsked(es) => forall|i: int|
            0 <= i < es.len() ==> #[trigger] is_stale_entry(es[i]),
        MountStageView::Deleting(es, k) => k < es.len() && forall|i: int|
            0 <= i < es.len() ==> #[trigger] is_stale_entry(es[i]),
        _ => true,
    }
}

proof fn lemma_delete_from(es: Seq<Seq<char>>, k: nat)
    requires
        forall|i: int| 0 <= i < es.len() ==> #[trigger] is_stale_entry(es[i]),
    ensures
        mount_inv(delete_from(es, k).0),
        delete_from(es, k).1.1 is RunIgnoringFailure || delete_from(es, k).1.1 is Abort
            || delete_from(es, k).1.1 is Finish,
        delete_from(es, k).1.1 matches MountActionView::RunIgnoringFailure(c) ==> (delete_from(
            es,
            k,
        ).0 matches MountStageView::Deleting(es2, j) && es2 == es && k <= j < es.len() && c
            == delete_cmd(boot_digits(es[j as int]))),
    decreases es.len() - k,
{
    if k < es.len() && boot_number_defined(es[k as int]) && encode_utf8(
        entry_head(es[k as int]),
    ).len() < 8 {
        lemma_delete_from(es, k + 1);
    }
}

proof fn lemma_program_names()
    ensures
        "efibootmgr"@ != "umount"@,
{
    reveal_strlit("efibootmgr");
    reveal_strlit("umount");
    assert("efibootmgr"@.len() != "umount"@.len());
}

/// Nothing is mounted until `findmnt` has found the target free, at the
/// first look or after unmounting.
pub proof fn law_mount_needs_free_target(ctx: ContextView, s: MountStageView, e: MountEventView)
    requires
        mount_inv(s),
    ensures
        mount_next(ctx, s, e).1.1 is Mount ==> (s is Probing || s is Reprobing) && (e matches MountEventView::Output(o) && o is Err),
{
    match s {
        MountStageView::StaleAsked(es) => lemma_delete_from(es, 0),
        MountStageView::Deleting(es, k) => lemma_delete_from(es, k + 1),
        _ => {},
    }
}

/// The target is unmounted only right after the user agreed to it, and the
/// stage never goes on while the target is still mounted: it fails when the
/// user declines or when the target is mounted after `umount -R`.
pub proof fn law_unmount_needs_consent(ctx: ContextView, s: MountStageView, e: MountEventView)
    requires
        mount_inv(s),
    ensures
        mount_next(ctx, s, e).1.1 == MountActionView::RunIgnoringFailure(unmount_cmd()) ==> s is UnmountAsked
            && e == MountEventView::Answer(true),
        s is UnmountAsked && e == MountEventView::Answer(false) ==> mount_next(ctx, s, e).1.1
            == MountActionView::Fail(ErrorView::TargetMounted),
        s is Reprobing && (e matches MountEventView::Output(o) && o is Ok) ==> mount_next(ctx, s, e).1.1
            == MountActionView::Fail(ErrorView::UnmountIncomplete),
{
    lemma_program_names();
    match s {
        MountStageView::StaleAsked(es) => lemma_delete_from(es, 0),
        MountStageView::Deleting(es, k) => lemma_delete_from(es, k + 1),
        _ => {},
    }
}

/// Bootloader files of an earlier install are removed only right after the
/// user agreed, and only the `EFI/Void` directory of the target's EFI
/// partition.
pub proof fn law_void_dir_removal_needs_consent(ctx: ContextView, s: MountStageView, e: MountEventView)
    requires
        mount_inv(s),
    ensures
        mount_next(ctx, s, e).1.1 matches MountActionView::RemoveDir(p, _) ==> s is VoidDirAsked && e
            == MountEventView::Answer(true) && p == "/mnt/boot/efi/EFI/Void"@,
{
    reveal_strlit("boot/efi/EFI/Void");
    reveal_strlit("/mnt/boot/efi/EFI/Void");
    reveal_strlit("/mnt/");
    assert("/mnt/"@ + "boot/efi/EFI/Void"@ =~= "/mnt/boot/efi/EFI/Void"@);
    match s {
        MountStageView::StaleAsked(es) => lemma_delete_from(es, 0),
        MountStageView::Deleting(es, k) => lemma_delete_from(es, k + 1),
        _ => {},
    }
}

/// Firmware boot entries are deleted only after the user saw them and
/// agreed, and each deletion is of the boot number of a `Boot` line that
/// names Void; the stage keeps [`mount_inv`] from its start on.
pub proof fn law_boot_entry_deletion(ctx: ContextView, s: MountStageView, e: MountEventView)
    requires
        mount_inv(s),
    ensures
        mount_inv(MountStageView::Start),
        mount_inv(mount_next(ctx, s, e).0),
        mount_next(ctx, s, e).1.1 matches MountActionView::RunIgnoringFailure(c) ==> (c.0
            == "efibootmgr"@ ==> ((s is StaleAsked && e == MountEventView::Answer(true)) || (s is Deleting
            && e is Done)) && (mount_next(ctx, s, e).0 matches MountStageView::Deleting(es, k) && k
            < es.len() && is_stale_entry(es[k as int]) && c == delete_cmd(boot_digits(es[k as int])))),
{
    lemma_program_names();
    match s {
        MountStageView::StaleAsked(es) => lemma_delete_from(es, 0),
        MountStageView::Deleting(es, k) => lemma_delete_from(es, k + 1),
        MountStageView::Listing => {
            match e {
                MountEventView::Output(Ok(out)) => {
                    law_stale_entries_name_void(lines(out));
                },
                _ => {},
            }
        },
        _ => {},
    }
}

/// An entry whose head yields a boot number.
pub open spec fn has_boot_number(entry: Seq<char>) -> bool {
    boot_number_defined(entry) && encode_utf8(entry_head(entry)).len() >= 8
}

/// An entry too short for a boot number, passed over.
pub open spec fn without_boot_number(entry: Seq<char>) -> bool {
    boot_number_defined(entry) && encode_utf8(entry_head(entry)).len() < 8
}

/// What a step that goes on deleting from entry `from` of `es` must be:
/// the stage finishes only when no entry from `from` on has a boot number;
/// a deletion is of the first such entry, by its own number; a stop is at
/// the first entry whose number would split a character.
pub open spec fn deletes_in_order(
    es: Seq<Seq<char>>,
    from: int,
    r: (MountStageView, MountStepView),
) -> bool {
    &&& r.1.1 is Finish ==> forall|j: int| from <= j < es.len() ==> #[trigger] without_boot_number(es[j])
    &&& r.1.1 matches MountActionView::RunIgnoringFailure(c) ==> (r.0 matches MountStageView::Deleting(
        es2,
        j,
    ) && es2 == es && from <= j < es.len() && has_boot_number(es[j as int]) && c == delete_cmd(
        boot_digits(es[j as int]),
    ) && forall|i: int| from <= i < j ==> #[trigger] without_boot_number(es[i]))
    &&& r.1.1 matches MountActionView::Abort(x) ==> exists|j: int|
        from <= j < es.len() && x == es[j] && !boot_number_defined(es[j]) && forall|i: int|
            from <= i < j ==> #[trigger] without_boot_number(es[i])
    &&& (r.1.1 is Finish || r.1.1 is RunIgnoringFailure || r.1.1 is Abort)
}

proof fn lemma_delete_from_in_order(es: Seq<Seq<char>>, k: nat)
    ensures
        deletes_in_order(es, k as int, delete_from(es, k)),
    decreases es.len() - k,
{
    if k < es.len() && boot_number_defined(es[k as int]) && encode_utf8(
        entry_head(es[k as int]),
    ).len() < 8 {
        lemma_delete_from_in_order(es, k + 1);
        let r = delete_from(es, k);
        assert(without_boot_number(es[k as int]));
        if r.1.1 is Abort {
            let x = r.1.1->Abort_0;
            let j = choose|j: int|
                k + 1 <= j < es.len() && x == es[j] && !boot_number_defined(es[j]) && forall|i: int|
                    k + 1 <= i < j ==> #[trigger] without_boot_number(es[i]);
            assert(forall|i: int| k <= i < j ==> #[trigger] without_boot_number(es[i]));
        }
    } else if k < es.len() && !boot_number_defined(es[k as int]) {
        assert(k <= k < es.len() && delete_from(es, k).1.1->Abort_0 == es[k as int]);
    }
}

/// Once the user agreed, every stale Void entry with a boot number is
/// deleted, in the listing's order: each step after the answer, and after
/// each deletion, deletes the next entry that has a boot number, and the
/// stage finishes only when none is left (it stops at an entry whose boot
/// number would split a character).
pub proof fn law_every_stale_entry_deleted(
    ctx: ContextView,
    es: Seq<Seq<char>>,
    k: nat,
    s: MountStageView,
    e: MountEventView,
)
    ensures
        s == MountStageView::StaleAsked(es) && e == MountEventView::Answer(true) ==> deletes_in_order(
            es,
            0,
            mount_next(ctx, s, e),
        ),
        s == MountStageView::Deleting(es, k) && e == MountEventView::Done ==> deletes_in_order(
            es,
            k + 1int,
            mount_next(ctx, s, e),
        ),
{
    lemma_delete_from_in_order(es, 0);
    lemma_delete_from_in_order(es, k + 1);
}

} // verus!
