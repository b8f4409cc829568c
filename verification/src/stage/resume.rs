//! Resuming: rebuild the install context from what is mounted at `/mnt`.

use vstd::prelude::*;
use crate::context::{ContextView, InstallContext, TARGET};
use crate::error::{output_view, ErrorView, InstallError, Probe};
use crate::text::{
    contains, has_prefix, has_substring, is_whitespace, starts_with, trim, trim_end, trim_start,
    trimmed,
};
use crate::types::{BtrfsLayout, FsType, VolumeManager};
use crate::util::command::{Cmd, string_result_view};

verus! {

/// What `findmnt -n -o <field> <mountpoint>` told: the trimmed value, or why
/// there is none.
pub open spec fn field_from(
    output: Result<Seq<char>, Seq<char>>,
    mountpoint: Seq<char>,
    field: Seq<char>,
) -> Result<Seq<char>, ErrorView> {
    match output {
        Err(m) => Err(ErrorView::CommandFailed(m)),
        Ok(out) => if trim(out).len() == 0 {
            Err(ErrorView::EmptyField(field, mountpoint))
        } else {
            Ok(trim(out))
        },
    }
}

/// The query that reads one field of a mountpoint.
pub fn findmnt_command(mountpoint: &str, field: &str) -> (r: Cmd)
    ensures
        r@ == ("findmnt"@, seq!["-n"@, "-o"@, field@, mountpoint@]),
{
    let r = Cmd::new("findmnt", &["-n", "-o", field, mountpoint]);
    assert(r@.1 =~= seq!["-n"@, "-o"@, field@, mountpoint@]);
    r
}

/// A single field of `mountpoint`, from the outcome of running
/// `findmnt -n -o <field> <mountpoint>`.
pub fn findmnt_field(output: &Result<String, String>, mountpoint: &str, field: &str) -> (r: Result<
    String,
    InstallError,
>)
    ensures
        string_result_view(&r) == field_from(output_view(output), mountpoint@, field@),
{
    match output {
        Err(m) => Err(InstallError::CommandFailed(m.clone())),
        Ok(out) => {
            let val = trimmed(out.as_str());
            if val.as_str().unicode_len() == 0 {
                Err(
                    InstallError::EmptyField {
                        field: String::from_str(field),
                        mountpoint: String::from_str(mountpoint),
                    },
                )
            } else {
                Ok(val)
            }
        },
    }
}

/// The layout that a subvolume listing shows: `Full` when it names `@home`
/// or `@snapshots`, else `Simple`; nothing when the listing failed.
pub open spec fn detected_layout(listing: Result<Seq<char>, Seq<char>>) -> Option<BtrfsLayout> {
    match listing {
        Err(_) => None,
        Ok(s) => if contains(s, "@home"@) || contains(s, "@snapshots"@) {
            Some(BtrfsLayout::Full)
        } else {
            Some(BtrfsLayout::Simple)
        },
    }
}

/// The query that lists the subvolumes of the mounted target.
pub fn subvolume_list_command() -> (r: Cmd)
    ensures
        r@ == ("btrfs"@, seq!["subvolume"@, "list"@, TARGET@]),
{
    let r = Cmd::new("btrfs", &["subvolume", "list", TARGET]);
    assert(r@.1 =~= seq!["subvolume"@, "list"@, TARGET@]);
    r
}

/// The BTRFS layout, from the outcome of `btrfs subvolume list /mnt`.
pub fn detect_btrfs_layout(listing: &Result<String, String>) -> (r: Option<BtrfsLayout>)
    ensures
        r == detected_layout(output_view(listing)),
{
    match listing {
        Err(_) => None,
        Ok(s) => {
            if has_substring(s.as_str(), "@home") || has_substring(s.as_str(), "@snapshots") {
                Some(BtrfsLayout::Full)
            } else {
                Some(BtrfsLayout::Simple)
            }
        },
    }
}

/// Whether the subvolume listing is needed: only a BTRFS root has a layout.
pub fn needs_subvolume_listing(root_fstype: &Result<String, String>) -> (r: bool)
    ensures
        r == (output_view(root_fstype) matches Ok(o) && trim(o) == "btrfs"@),
{
    match root_fstype {
        Ok(out) => crate::text::str_eq(trimmed(out.as_str()).as_str(), "btrfs"),
        Err(_) => false,
    }
}

/// A root device that lies in a volume group of the installer's naming.
pub open spec fn lvm_source(root: Seq<char>) -> bool {
    starts_with(root, "/dev/vg_"@) || starts_with(root, "/dev/vg_void/"@)
}

pub fn lvm_root_source(root: &str) -> (r: bool)
    ensures
        r == lvm_source(root@),
{
    has_prefix(root, "/dev/vg_") || has_prefix(root, "/dev/vg_void/")
}

pub open spec fn ctx_result_view(r: &Result<InstallContext, InstallError>) -> Result<
    ContextView,
    ErrorView,
> {
    match r {
        Ok(c) => Ok(c@),
        Err(e) => Err(e.view()),
    }
}

/// The context that the probes of the mounted target give, or the first
/// probe that failed.
pub open spec fn reconstructed(
    root_source: Result<Seq<char>, Seq<char>>,
    root_fstype: Result<Seq<char>, Seq<char>>,
    efi_source: Result<Seq<char>, Seq<char>>,
    listing: Result<Seq<char>, Seq<char>>,
) -> Result<ContextView, ErrorView> {
    match field_from(root_source, "/mnt"@, "SOURCE"@) {
        Err(e) => Err(ErrorView::Cannot(Probe::RootDevice, Box::new(e))),
        Ok(root) => match field_from(root_fstype, "/mnt"@, "FSTYPE"@) {
            Err(e) => Err(ErrorView::Cannot(Probe::RootFsType, Box::new(e))),
            Ok(fst) => match FsType::parsed(fst) {
                None => Err(ErrorView::UnsupportedFilesystem(fst)),
                Some(fs) => match field_from(efi_source, "/mnt/boot/efi"@, "SOURCE"@) {
                    Err(e) => Err(ErrorView::Cannot(Probe::EfiDevice, Box::new(e))),
                    Ok(efi) => Ok(
                        ContextView {
                            root_device: root,
                            efi_device: efi,
                            fs_type: fs,
                            btrfs_layout: if fs == FsType::Btrfs {
                                detected_layout(listing)
                            } else {
                                None
                            },
                            volume_mgr: if lvm_source(root) {
                                VolumeManager::Lvm
                            } else {
                                VolumeManager::Standard
                            },
                        },
                    ),
                },
            },
        },
    }
}

/// Reconstruct an `InstallContext` from the probes of the already-mounted
/// target: `findmnt` for the root's SOURCE and FSTYPE (at `/mnt`) and for
/// the EFI partition's SOURCE (at `/mnt/boot/efi`), and the subvolume
/// listing of `/mnt`.
pub fn reconstruct_context(
    root_source: &Result<String, String>,
    root_fstype: &Result<String, String>,
    efi_source: &Result<String, String>,
    subvolume_listing: &Result<String, String>,
) -> (r: Result<InstallContext, InstallError>)
    ensures
        ctx_result_view(&r) == reconstructed(
            output_view(root_source),
            output_view(root_fstype),
            output_view(efi_source),
            output_view(subvolume_listing),
        ),
{
    let root = match findmnt_field(root_source, TARGET, "SOURCE") {
        Ok(v) => v,
        Err(e) => {
            return Err(InstallError::Cannot(Probe::RootDevice, Box::new(e)));
        },
    };
    let fstype = match findmnt_field(root_fstype, TARGET, "FSTYPE") {
        Ok(v) => v,
        Err(e) => {
            return Err(InstallError::Cannot(Probe::RootFsType, Box::new(e)));
        },
    };
    let fs_type = match FsType::parse(fstype.as_str()) {
        Ok(f) => f,
        Err(_) => {
            return Err(InstallError::UnsupportedFilesystem(fstype));
        },
    };
    let efi_device = match findmnt_field(efi_source, "/mnt/boot/efi", "SOURCE") {
        Ok(v) => v,
        Err(e) => {
            return Err(InstallError::Cannot(Probe::EfiDevice, Box::new(e)));
        },
    };
    let btrfs_layout = if fs_type == FsType::Btrfs {
        detect_btrfs_layout(subvolume_listing)
    } else {
        None
    };
    let volume_mgr = if lvm_root_source(root.as_str()) {
        VolumeManager::Lvm
    } else {
        VolumeManager::Standard
    };
    Ok(InstallContext { root_device: root, efi_device, fs_type, btrfs_layout, volume_mgr })
}

/// A value that `findmnt` prints on a line of its own reads back as itself.
proof fn lemma_trim_reported_line(x: Seq<char>)
    requires
        x.len() > 0,
        !is_whitespace(x[0]),
        !is_whitespace(x.last()),
    ensures
        trim(x + "\n"@) == x,
{
    reveal_strlit("\n");
    let y = x + "\n"@;
    assert(y[0] == x[0]);
    assert(trim_start(y) == y);
    assert(y.last() == '\n');
    assert(y.drop_last() =~= x);
    assert(trim_end(y) == trim_end(x));
}

/// Resuming reads back the context of an install: when the root and EFI
/// devices and the root's filesystem type are reported as they were set up,
/// and the subvolume listing holds the subvolumes of the layout, the
/// reconstructed context is the one that was set up. The volume manager is read
/// from the root device's name, so this holds when LVM roots, and only they,
/// lie in a `vg_` volume group; and a layout exists just on BTRFS.
pub proof fn law_resume_reads_back_context(ctx: ContextView, listing: Seq<char>)
    requires
        ctx.root_device.len() > 0,
        !is_whitespace(ctx.root_device[0]),
        !is_whitespace(ctx.root_device.last()),
        ctx.efi_device.len() > 0,
        !is_whitespace(ctx.efi_device[0]),
        !is_whitespace(ctx.efi_device.last()),
        ctx.volume_mgr == VolumeManager::Lvm <==> lvm_source(ctx.root_device),
        ctx.fs_type == FsType::Btrfs <==> ctx.btrfs_layout is Some,
        ctx.btrfs_layout == Some(BtrfsLayout::Full) ==> contains(listing, "@home"@),
        ctx.btrfs_layout == Some(BtrfsLayout::Simple) ==> !contains(listing, "@home"@) && !contains(
            listing,
            "@snapshots"@,
        ),
    ensures
        reconstructed(
            Ok(ctx.root_device + "\n"@),
            Ok(ctx.fs_type.label() + "\n"@),
            Ok(ctx.efi_device + "\n"@),
            Ok(listing),
        ) == Ok::<ContextView, ErrorView>(ctx),
{
    lemma_trim_reported_line(ctx.root_device);
    lemma_trim_reported_line(ctx.efi_device);
    reveal_strlit("ext4");
    reveal_strlit("btrfs");
    reveal_strlit("xfs");
    lemma_trim_reported_line(ctx.fs_type.label());
    crate::types::law_fs_type_labels_round_trip(ctx.fs_type);
    assert(field_from(Ok(ctx.root_device + "\n"@), "/mnt"@, "SOURCE"@) == Ok::<Seq<char>, ErrorView>(ctx.root_device));
    assert(field_from(Ok(ctx.fs_type.label() + "\n"@), "/mnt"@, "FSTYPE"@) == Ok::<Seq<char>, ErrorView>(ctx.fs_type.label()));
    assert(field_from(Ok(ctx.efi_device + "\n"@), "/mnt/boot/efi"@, "SOURCE"@) == Ok::<Seq<char>, ErrorView>(ctx.efi_device));
    if ctx.fs_type == FsType::Btrfs {
        assert(detected_layout(Ok(listing)) == ctx.btrfs_layout);
    }
}

/// Where the listing is not needed, the reconstructed context does not
/// depend on it.
pub proof fn law_listing_only_for_btrfs(
    root_source: Result<Seq<char>, Seq<char>>,
    root_fstype: Result<Seq<char>, Seq<char>>,
    efi_source: Result<Seq<char>, Seq<char>>,
    l1: Result<Seq<char>, Seq<char>>,
    l2: Result<Seq<char>, Seq<char>>,
)
    requires
        !(root_fstype matches Ok(o) && trim(o) == "btrfs"@),
    ensures
        reconstructed(root_source, root_fstype, efi_source, l1) == reconstructed(
            root_source,
            root_fstype,
            efi_source,
            l2,
        ),
{
}

} // verus!
