//! Native system configuration: fstab, locale and LVM boot settings.

use vstd::prelude::*;
use crate::context::{resolve_in_target, target_join, ContextView, InstallContext};
use crate::error::{output_view, ErrorView, InstallError};
use crate::text::{
    contains, occurs_at, terminated, has_prefix, has_substring, join_lines, join_with_newlines, lines,
    split_lines, starts_with, string_views, trim_start, whitespace, is_whitespace,
    lemma_trim_start_skips,
};
use crate::types::{FsType, VolumeManager, LV_ROOT, VG_NAME};
use crate::stage::mount::{root_mount, subvol_mount, subvol_mounts};
use crate::util::command::{block_device_uuid, run_chroot, string_result_view, uuid_from, Cmd};

verus! {

// ── fstab ───────────────────────────────────────────────────────

pub open spec fn root_line(root_id: Seq<char>, fs: FsType) -> Seq<char> {
    root_id + " / "@ + fs.label() + " "@ + fs.root_mount_opts() + " "@ + fs.dump_pass()
}

pub open spec fn subvol_line(root_id: Seq<char>, fs: FsType, name: Seq<char>, mountpoint: Seq<
    char,
>) -> Seq<char> {
    root_id + " /"@ + mountpoint + " "@ + fs.label() + " "@ + (
    "defaults,compress=zstd,space_cache=v2,subvol="@ + name) + " 0 0"@
}

/// One entry per subvolume that is not mounted at the root.
pub open spec fn subvol_lines(
    svs: Seq<(Seq<char>, Seq<char>)>,
    root_id: Seq<char>,
    fs: FsType,
) -> Seq<Seq<char>>
    decreases svs.len(),
{
    if svs.len() == 0 {
        seq![]
    } else {
        let rest = subvol_lines(svs.drop_last(), root_id, fs);
        let sv = svs.last();
        if sv.1.len() == 0 {
            rest
        } else {
            rest.push(subvol_line(root_id, fs, sv.0, sv.1))
        }
    }
}

pub open spec fn efi_line(efi_uuid: Seq<char>) -> Seq<char> {
    "UUID="@ + efi_uuid + " /boot/efi vfat defaults 0 0"@
}

/// The entries of `/etc/fstab`: root, the other BTRFS subvolumes, EFI.
pub open spec fn fstab_lines(ctx: ContextView, root_id: Seq<char>, efi_uuid: Seq<char>) -> Seq<
    Seq<char>,
> {
    seq![root_line(root_id, ctx.fs_type)] + match ctx.btrfs_layout {
        Some(l) => subvol_lines(l.subvolume_specs(), root_id, ctx.fs_type),
        None => seq![],
    } + seq![efi_line(efi_uuid)]
}

/// How fstab names the root device: an LVM volume by its path, any other
/// device by the UUID that `blkid` reports.
pub open spec fn root_id_from(ctx: ContextView, root_blkid: Result<Seq<char>, Seq<char>>) -> Result<
    Seq<char>,
    ErrorView,
> {
    if ctx.volume_mgr == VolumeManager::Lvm {
        Ok(ctx.root_device)
    } else {
        match uuid_from(root_blkid, ctx.root_device) {
            Ok(u) => Ok("UUID="@ + u),
            Err(e) => Err(e),
        }
    }
}

/// The fstab text, or the first UUID lookup that failed (EFI first).
pub open spec fn fstab_from(
    ctx: ContextView,
    efi_blkid: Result<Seq<char>, Seq<char>>,
    root_blkid: Result<Seq<char>, Seq<char>>,
) -> Result<Seq<char>, ErrorView> {
    match uuid_from(efi_blkid, ctx.efi_device) {
        Err(e) => Err(e),
        Ok(efi) => match root_id_from(ctx, root_blkid) {
            Err(e) => Err(e),
            Ok(rid) => Ok(join_lines(fstab_lines(ctx, rid, efi))),
        },
    }
}

/// The device identifier for the root device in fstab; `root_blkid` is the
/// outcome of `blkid` on the root device, used only when it is not an LVM
/// volume.
pub fn root_device_id(ctx: &InstallContext, root_blkid: &Result<String, String>) -> (r: Result<
    String,
    InstallError,
>)
    ensures
        string_result_view(&r) == root_id_from(ctx@, output_view(root_blkid)),
{
    if ctx.volume_mgr == VolumeManager::Lvm {
        Ok(ctx.root_device.clone())
    } else {
        match block_device_uuid(root_blkid, ctx.root_device.as_str()) {
            Ok(u) => Ok(crate::text::cat("UUID=", u.as_str())),
            Err(e) => Err(e),
        }
    }
}

/// The `blkid` query that [`root_device_id`] needs: none for an LVM volume,
/// which fstab names by its path.
pub fn root_uuid_query(ctx: &InstallContext) -> (r: Option<Cmd>)
    ensures
        r is Some <==> ctx.volume_mgr != VolumeManager::Lvm,
        r matches Some(c) ==> c@ == ("blkid"@, seq!["-s"@, "UUID"@, "-o"@, "value"@, ctx.root_device@]),
{
    if ctx.volume_mgr == VolumeManager::Lvm {
        None
    } else {
        Some(crate::util::command::blkid_command(ctx.root_device.as_str()))
    }
}

fn root_entry(root_id: &str, fs: FsType) -> (r: String)
    ensures
        r@ == root_line(root_id@, fs),
{
    let mut s = String::from_str(root_id);
    s.append(" / ");
    s.append(fs.as_str());
    s.append(" ");
    s.append(fs.mount_opts());
    s.append(" ");
    s.append(fs.fstab_dump_pass());
    s
}

fn subvol_entry(root_id: &str, fs: FsType, name: &str, mountpoint: &str) -> (r: String)
    ensures
        r@ == subvol_line(root_id@, fs, name@, mountpoint@),
{
    let mut s = String::from_str(root_id);
    s.append(" /");
    s.append(mountpoint);
    s.append(" ");
    s.append(fs.as_str());
    s.append(" ");
    let opts = fs.subvol_mount_opts(name);
    s.append(opts.as_str());
    s.append(" 0 0");
    proof {
        assert(s@ =~= subvol_line(root_id@, fs, name@, mountpoint@));
    }
    s
}

/// Build `/etc/fstab` contents from the install context and the outcomes of
/// `blkid` on the EFI partition and on the root device.
pub fn generate_fstab(
    ctx: &InstallContext,
    efi_blkid: &Result<String, String>,
    root_blkid: &Result<String, String>,
) -> (r: Result<String, InstallError>)
    ensures
        string_result_view(&r) == fstab_from(ctx@, output_view(efi_blkid), output_view(root_blkid)),
{
    let efi_uuid = match block_device_uuid(efi_blkid, ctx.efi_device.as_str()) {
        Ok(u) => u,
        Err(e) => {
            return Err(e);
        },
    };
    let root_id = match root_device_id(ctx, root_blkid) {
        Ok(r) => r,
        Err(e) => {
            return Err(e);
        },
    };
    let fs = ctx.fs_type;
    let mut lines: Vec<String> = Vec::new();
    lines.push(root_entry(root_id.as_str(), fs));
    let ghost head = seq![root_line(root_id@, fs)];
    assert(string_views(lines@) =~= head);
    match ctx.btrfs_layout {
        Some(layout) => {
            let svs = layout.subvolumes();
            let ghost specs = layout.subvolume_specs();
            let mut i: usize = 0;
            while i < svs.len()
                invariant
                    i <= svs@.len(),
                    crate::types::subvol_views(svs@) == specs,
                    string_views(lines@) == head + subvol_lines(
                        specs.subrange(0, i as int),
                        root_id@,
                        fs,
                    ),
                decreases svs@.len() - i,
            {
                let sv = svs[i];
                proof {
                    assert(specs.subrange(0, i + 1).drop_last() =~= specs.subrange(0, i as int));
                    assert(specs.subrange(0, i + 1).last() == specs[i as int]);
                    assert(specs[i as int] == (sv.name@, sv.mountpoint@));
                }
                if sv.mountpoint.unicode_len() != 0 {
                    let ghost before = lines@;
                    let e = subvol_entry(root_id.as_str(), fs, sv.name, sv.mountpoint);
                    lines.push(e);
                    proof {
                        assert(string_views(lines@) =~= string_views(before).push(e@));
                    }
                }
                i += 1;
            }
            assert(specs.subrange(0, svs@.len() as int) =~= specs);
        },
        None => {
            assert(head + Seq::<Seq<char>>::empty() =~= head);
        },
    }
    let ghost before = lines@;
    let mut efi = String::from_str("UUID=");
    efi.append(efi_uuid.as_str());
    efi.append(" /boot/efi vfat defaults 0 0");
    lines.push(efi);
    proof {
        assert(string_views(lines@) =~= string_views(before).push(efi_line(efi_uuid@)));
        assert(string_views(lines@) =~= fstab_lines(ctx@, root_id@, efi_uuid@));
    }
    Ok(join_with_newlines(&lines))
}

/// The options of the root mount: those it passes with `-o`, or
/// `defaults` when it passes none.
pub open spec fn root_mount_options(m: (Seq<char>, Seq<Seq<char>>)) -> Seq<char> {
    if m.1.len() == 4 && m.1[0] == "-o"@ {
        m.1[1]
    } else {
        "defaults"@
    }
}

/// The first entry of fstab mounts the root at `/` with the same options as
/// the mounting stage's root mount: `defaults` for ext4 and XFS (mounted
/// without `-o`), and the BTRFS options with `subvol=@` for BTRFS.
pub proof fn law_fstab_root_matches_root_mount(ctx: ContextView, root_id: Seq<char>, efi_uuid: Seq<char>)
    ensures
        fstab_lines(ctx, root_id, efi_uuid)[0] == root_id + " / "@ + ctx.fs_type.label() + " "@
            + root_mount_options(root_mount(ctx)) + " "@ + ctx.fs_type.dump_pass(),
        ctx.fs_type != FsType::Btrfs ==> root_mount_options(root_mount(ctx)) == "defaults"@
            && root_mount(ctx).1 == seq![ctx.root_device, "/mnt"@],
        ctx.fs_type == FsType::Btrfs ==> root_mount_options(root_mount(ctx))
            == "defaults,compress=zstd,space_cache=v2,subvol=@"@,
{
    reveal_strlit("-o");
    reveal_strlit("/mnt");
    assert("-o"@.len() == 2 && "/mnt"@.len() == 4);
}

/// The subvolumes that are mounted outside the root, in layout order.
pub open spec fn mounted_subvols(svs: Seq<(Seq<char>, Seq<char>)>) -> Seq<(Seq<char>, Seq<char>)>
    decreases svs.len(),
{
    if svs.len() == 0 {
        seq![]
    } else {
        let rest = mounted_subvols(svs.drop_last());
        if svs.last().1.len() == 0 {
            rest
        } else {
            rest.push(svs.last())
        }
    }
}

/// The subvolume entries of fstab and the subvolume mounts made during the
/// install come from the same subvolumes, in the same order: each entry
/// names the directory that the mount uses (below the target) and carries
/// the options that the mount passes with `-o`.
pub proof fn law_fstab_matches_subvolume_mounts(
    svs: Seq<(Seq<char>, Seq<char>)>,
    root_id: Seq<char>,
    root_device: Seq<char>,
)
    ensures
        subvol_lines(svs, root_id, FsType::Btrfs) == mounted_subvols(svs).map_values(
            |sv: (Seq<char>, Seq<char>)| subvol_line(root_id, FsType::Btrfs, sv.0, sv.1),
        ),
        subvol_mounts(svs, root_device) == mounted_subvols(svs).map_values(
            |sv: (Seq<char>, Seq<char>)| subvol_mount(root_device, sv.0, sv.1),
        ),
        forall|name: Seq<char>, mp: Seq<char>|
            #![trigger subvol_line(root_id, FsType::Btrfs, name, mp)]
            mp.len() > 0 && mp[0] != '/' ==> {
                let m = subvol_mount(root_device, name, mp);
                &&& m.1 == "/mnt/"@ + mp
                &&& m.2.1[3] == m.1
                &&& subvol_line(root_id, FsType::Btrfs, name, mp) == root_id + " /"@ + mp
                    + " btrfs "@ + m.2.1[1] + " 0 0"@
            },
    decreases svs.len(),
{
    if svs.len() > 0 {
        law_fstab_matches_subvolume_mounts(svs.drop_last(), root_id, root_device);
    }
    assert(subvol_lines(svs, root_id, FsType::Btrfs) =~= mounted_subvols(svs).map_values(
        |sv: (Seq<char>, Seq<char>)| subvol_line(root_id, FsType::Btrfs, sv.0, sv.1),
    ));
    assert(subvol_mounts(svs, root_device) =~= mounted_subvols(svs).map_values(
        |sv: (Seq<char>, Seq<char>)| subvol_mount(root_device, sv.0, sv.1),
    ));
    assert forall|name: Seq<char>, mp: Seq<char>|
        #![trigger subvol_line(root_id, FsType::Btrfs, name, mp)]
        mp.len() > 0 && mp[0] != '/' implies {
            let m = subvol_mount(root_device, name, mp);
            &&& m.1 == "/mnt/"@ + mp
            &&& m.2.1[3] == m.1
            &&& subvol_line(root_id, FsType::Btrfs, name, mp) == root_id + " /"@ + mp
                + " btrfs "@ + m.2.1[1] + " 0 0"@
        } by {
        reveal_strlit("btrfs");
        reveal_strlit(" ");
        reveal_strlit(" btrfs ");
        assert(" "@ + "btrfs"@ + " "@ =~= " btrfs "@);
        assert(subvol_line(root_id, FsType::Btrfs, name, mp) =~= root_id + " /"@ + mp
            + " btrfs "@ + subvol_mount(root_device, name, mp).2.1[1] + " 0 0"@);
    }
}

// ── Locale ──────────────────────────────────────────────────────

/// `s` without its leading `#` characters.
pub open spec fn strip_hashes(s: Seq<char>) -> Seq<char>
    decreases s.len(),
{
    if s.len() > 0 && s[0] == '#' {
        strip_hashes(s.drop_first())
    } else {
        s
    }
}

/// A line of `libc-locales` with its comment marks and the blanks after
/// them removed.
pub open spec fn unhashed(line: Seq<char>) -> Seq<char> {
    trim_start(strip_hashes(line))
}

/// A `libc-locales` line enabled for `locale` when it names that locale,
/// unchanged otherwise.
pub open spec fn locale_line(line: Seq<char>, locale: Seq<char>) -> Seq<char> {
    let u = unhashed(line);
    if u == locale || starts_with(u, locale + " "@) {
        u
    } else {
        line
    }
}

pub open spec fn enabled_locales(contents: Seq<char>, locale: Seq<char>) -> Seq<char> {
    join_lines(lines(contents).map_values(|l: Seq<char>| locale_line(l, locale)))
}

proof fn lemma_strip_hashes_skips(s: Seq<char>, i: int)
    requires
        0 <= i <= s.len(),
        forall|j: int| 0 <= j < i ==> s[j] == '#',
    ensures
        strip_hashes(s) == strip_hashes(s.subrange(i, s.len() as int)),
    decreases i,
{
    if i > 0 {
        assert(s.drop_first().subrange(i - 1, s.drop_first().len() as int) =~= s.subrange(
            i,
            s.len() as int,
        ));
        lemma_strip_hashes_skips(s.drop_first(), i - 1);
    } else {
        assert(s.subrange(0, s.len() as int) =~= s);
    }
}

fn unhash(line: &str) -> (r: String)
    ensures
        r@ == unhashed(line@),
{
    let n = line.unicode_len();
    let mut b: usize = 0;
    while b < n && line.get_char(b) == '#'
        invariant
            n == line@.len(),
            b <= n,
            forall|j: int| 0 <= j < b ==> line@[j] == '#',
        decreases n - b,
    {
        b += 1;
    }
    proof {
        lemma_strip_hashes_skips(line@, b as int);
    }
    let ghost t = line@.subrange(b as int, n as int);
    assert(strip_hashes(t) == t);
    let mut c: usize = b;
    while c < n && whitespace(line.get_char(c))
        invariant
            n == line@.len(),
            b <= c <= n,
            t == line@.subrange(b as int, n as int),
            forall|j: int| b <= j < c ==> is_whitespace(line@[j]),
        decreases n - c,
    {
        c += 1;
    }
    proof {
        assert forall|j: int| 0 <= j < c - b implies is_whitespace(t[j]) by {
            assert(t[j] == line@[b + j]);
        }
        lemma_trim_start_skips(t, c - b);
        let u = t.subrange(c - b, t.len() as int);
        assert(u =~= line@.subrange(c as int, n as int));
        assert(trim_start(u) == u);
    }
    String::from_str(line.substring_char(c, n))
}

fn enable_line(line: &str, locale: &str) -> (r: String)
    ensures
        r@ == locale_line(line@, locale@),
{
    let u = unhash(line);
    let with_space = crate::text::cat(locale, " ");
    if crate::text::str_eq(u.as_str(), locale) || has_prefix(u.as_str(), with_space.as_str()) {
        u
    } else {
        String::from_str(line)
    }
}

/// The new contents of `/etc/default/libc-locales`: every line naming
/// `locale` loses its comment marks.
pub fn enable_locale(contents: &str, locale: &str) -> (r: String)
    ensures
        r@ == enabled_locales(contents@, locale@),
{
    let ls = split_lines(contents);
    let ghost src = lines(contents@);
    let mut out: Vec<String> = Vec::new();
    let mut i: usize = 0;
    while i < ls.len()
        invariant
            i <= ls@.len(),
            string_views(ls@) == src,
            string_views(out@) == src.subrange(0, i as int).map_values(
                |l: Seq<char>| locale_line(l, locale@),
            ),
        decreases ls@.len() - i,
    {
        let ghost before = out@;
        let e = enable_line(ls[i].as_str(), locale);
        out.push(e);
        proof {
            assert(src[i as int] == ls@[i as int]@);
            assert(string_views(out@) =~= string_views(before).push(e@));
            assert(string_views(out@) =~= src.subrange(0, i + 1).map_values(
                |l: Seq<char>| locale_line(l, locale@),
            ));
        }
        i += 1;
    }
    assert(src.subrange(0, ls@.len() as int) =~= src);
    join_with_newlines(&out)
}

// ── LVM boot plumbing ───────────────────────────────────────────

/// The kernel parameter that tells dracut which LV holds the root.
pub open spec fn lvm_param() -> Seq<char> {
    "rd.lvm.lv="@ + VG_NAME@ + "/"@ + LV_ROOT@
}

pub open spec fn grub_key() -> Seq<char> {
    "GRUB_CMDLINE_LINUX_DEFAULT="@
}

/// `s` without the `"` that closes its quoted value, if it ends in one.
pub open spec fn open_quote_end(s: Seq<char>) -> Seq<char> {
    if s.len() > 0 && s.last() == '"' {
        s.drop_last()
    } else {
        s
    }
}

/// The default command-line line gains the LVM parameter inside its quotes:
/// the value's closing quote moves behind the parameter.
pub open spec fn grub_line(line: Seq<char>) -> Seq<char> {
    if starts_with(line, grub_key()) {
        open_quote_end(line) + " "@ + lvm_param() + "\""@
    } else {
        line
    }
}

/// The new `/etc/default/grub`, if it must be written: a minimal file when
/// there is none, nothing when the parameter is already there, else every
/// default command line extended.
pub open spec fn grub_defaults_update(existing: Option<Seq<char>>) -> Option<Seq<char>> {
    match existing {
        None => Some(grub_key() + "\"loglevel=4 "@ + lvm_param() + "\"\n"@),
        Some(c) => if contains(c, lvm_param()) {
            None
        } else {
            Some(join_lines(lines(c).map_values(|l: Seq<char>| grub_line(l))))
        },
    }
}

pub fn lvm_kernel_param() -> (r: String)
    ensures
        r@ == lvm_param(),
{
    let mut s = String::from_str("rd.lvm.lv=");
    s.append(VG_NAME);
    s.append("/");
    s.append(LV_ROOT);
    s
}

fn extend_grub_line(line: &str, param: &str) -> (r: String)
    requires
        param@ == lvm_param(),
    ensures
        r@ == grub_line(line@),
{
    if has_prefix(line, "GRUB_CMDLINE_LINUX_DEFAULT=") {
        let n = line.unicode_len();
        let e: usize = if n > 0 && line.get_char(n - 1) == '"' {
            n - 1
        } else {
            n
        };
        proof {
            if n > 0 && line@.last() == '"' {
                assert(line@.subrange(0, e as int) =~= line@.drop_last());
            } else {
                assert(line@.subrange(0, e as int) =~= line@);
            }
        }
        let mut s = String::from_str(line.substring_char(0, e));
        s.append(" ");
        s.append(param);
        s.append("\"");
        s
    } else {
        String::from_str(line)
    }
}

/// The GRUB defaults to write for an LVM root, given the current file
/// contents (`None` when the file does not exist); `None` when nothing must
/// be written.
pub fn lvm_grub_defaults(existing: Option<&str>) -> (r: Option<String>)
    ensures
        r matches Some(s) ==> grub_defaults_update(match existing {
            Some(c) => Some(c@),
            None => None,
        }) == Some(s@),
        r is None ==> grub_defaults_update(match existing {
            Some(c) => Some(c@),
            None => None,
        }) is None,
{
    let param = lvm_kernel_param();
    match existing {
        None => {
            let mut s = String::from_str("GRUB_CMDLINE_LINUX_DEFAULT=");
            s.append("\"loglevel=4 ");
            s.append(param.as_str());
            s.append("\"\n");
            Some(s)
        },
        Some(c) => {
            if has_substring(c, param.as_str()) {
                return None;
            }
            let ls = split_lines(c);
            let ghost src = lines(c@);
            let mut out: Vec<String> = Vec::new();
            let mut i: usize = 0;
            while i < ls.len()
                invariant
                    i <= ls@.len(),
                    param@ == lvm_param(),
                    string_views(ls@) == src,
                    string_views(out@) == src.subrange(0, i as int).map_values(
                        |l: Seq<char>| grub_line(l),
                    ),
                decreases ls@.len() - i,
            {
                let ghost before = out@;
                let e = extend_grub_line(ls[i].as_str(), param.as_str());
                out.push(e);
                proof {
                    assert(src[i as int] == ls@[i as int]@);
                    assert(string_views(out@) =~= string_views(before).push(e@));
                    assert(string_views(out@) =~= src.subrange(0, i + 1).map_values(
                        |l: Seq<char>| grub_line(l),
                    ));
                }
                i += 1;
            }
            assert(src.subrange(0, ls@.len() as int) =~= src);
            Some(join_with_newlines(&out))
        },
    }
}

proof fn lemma_occurs_in_prefix(a: Seq<char>, b: Seq<char>, p: Seq<char>, k: int)
    requires
        occurs_at(a, p, k),
    ensures
        occurs_at(a + b, p, k),
{
    assert((a + b).subrange(k, k + p.len()) =~= a.subrange(k, k + p.len()));
}

/// A piece of one line is a piece of the lines joined.
proof fn lemma_line_piece_in_terminated(ls: Seq<Seq<char>>, i: int, p: Seq<char>, k: int)
    requires
        0 <= i < ls.len(),
        occurs_at(ls[i], p, k),
    ensures
        contains(terminated(ls), p),
    decreases ls.len(),
{
    let t = terminated(ls.drop_last());
    if i == ls.len() - 1 {
        let whole = t + ls.last() + seq!['\n'];
        assert(whole.subrange(t.len() + k, t.len() + k + p.len()) =~= ls[i].subrange(
            k,
            k + p.len(),
        ));
        assert(occurs_at(terminated(ls), p, t.len() + k));
    } else {
        lemma_line_piece_in_terminated(ls.drop_last(), i, p, k);
        let j = choose|j: int| occurs_at(t, p, j);
        lemma_occurs_in_prefix(t, ls.last() + seq!['\n'], p, j);
        assert(t + (ls.last() + seq!['\n']) =~= terminated(ls));
        assert(occurs_at(terminated(ls), p, j));
    }
}

/// Once the GRUB defaults of an LVM root have been written, configuring the
/// boot again leaves them as they are: the second run finds the kernel
/// parameter and writes nothing. This holds when there was no defaults file
/// or when it has a `GRUB_CMDLINE_LINUX_DEFAULT=` line to extend.
pub proof fn law_grub_defaults_settle(existing: Option<Seq<char>>)
    requires
        existing matches Some(c) ==> exists|i: int|
            0 <= i < lines(c).len() && #[trigger] starts_with(lines(c)[i], grub_key()),
    ensures
        grub_defaults_update(
            match grub_defaults_update(existing) {
                Some(u) => Some(u),
                None => existing,
            },
        ) is None,
{
    match existing {
        None => {
            let u = grub_key() + "\"loglevel=4 "@ + lvm_param() + "\"\n"@;
            let k: int = (grub_key().len() + "\"loglevel=4 "@.len()) as int;
            assert(u.subrange(k, k + lvm_param().len() as int) =~= lvm_param());
            assert(occurs_at(u, lvm_param(), k));
        },
        Some(c) => {
            if !contains(c, lvm_param()) {
                let ls = lines(c);
                let mapped = ls.map_values(|l: Seq<char>| grub_line(l));
                let i = choose|i: int|
                    0 <= i < lines(c).len() && #[trigger] starts_with(lines(c)[i], grub_key());
                let li = mapped[i];
                let head = open_quote_end(ls[i]) + " "@;
                assert(li =~= head + lvm_param() + "\""@);
                assert(li.subrange(head.len() as int, (head.len() + lvm_param().len()) as int) =~= lvm_param());
                assert(occurs_at(li, lvm_param(), head.len() as int));
                lemma_line_piece_in_terminated(mapped, i, lvm_param(), head.len() as int);
            }
        },
    }
}

/// The dracut snippet that forces the `lvm` module into the initramfs.
pub open spec fn dracut_lvm_conf() -> Seq<char> {
    "# Added by void_bootstrap — LVM root support.\nadd_dracutmodules+=\" lvm \"\n"@
}

/// What configuring an LVM root boot writes.
pub struct LvmBootFiles {
    /// Directory of the dracut snippet, created first.
    pub dracut_dir: String,
    /// Path and contents of the dracut snippet.
    pub dracut_path: String,
    pub dracut_contents: String,
    /// Path of the GRUB defaults, and their new contents when they change.
    pub grub_path: String,
    pub grub_contents: Option<String>,
}

/// Ensure the initramfs (dracut) and bootloader (GRUB) are configured so
/// that an LVM root volume can be activated and mounted at boot, given the
/// current GRUB defaults (`None` when that file does not exist).
pub fn configure_lvm_boot(grub_defaults: Option<&str>) -> (r: LvmBootFiles)
    ensures
        r.dracut_dir@ == target_join("etc/dracut.conf.d"@),
        r.dracut_path@ == target_join("etc/dracut.conf.d"@) + "/lvm.conf"@,
        r.dracut_contents@ == dracut_lvm_conf(),
        r.grub_path@ == target_join("etc/default/grub"@),
        r.grub_contents matches Some(s) ==> grub_defaults_update(match grub_defaults {
            Some(c) => Some(c@),
            None => None,
        }) == Some(s@),
        r.grub_contents is None ==> grub_defaults_update(match grub_defaults {
            Some(c) => Some(c@),
            None => None,
        }) is None,
{
    let dracut_dir = resolve_in_target("etc/dracut.conf.d");
    let dracut_path = crate::text::cat(dracut_dir.as_str(), "/lvm.conf");
    LvmBootFiles {
        dracut_dir,
        dracut_path,
        dracut_contents: String::from_str(
            "# Added by void_bootstrap — LVM root support.\nadd_dracutmodules+=\" lvm \"\n",
        ),
        grub_path: resolve_in_target("etc/default/grub"),
        grub_contents: lvm_grub_defaults(grub_defaults),
    }
}

// ── Other system files ──────────────────────────────────────────

/// The files and commands of the native configuration stage.
pub struct SystemFiles {
    /// `/mnt/etc/hostname` and its contents.
    pub hostname_path: String,
    pub hostname_contents: String,
    /// The link of `/etc/localtime` to the chosen zone, run in the chroot.
    pub localtime_link: Cmd,
    /// `/mnt/etc/locale.conf` and its contents.
    pub locale_conf_path: String,
    pub locale_conf_contents: String,
    /// `/mnt/etc/default/libc-locales`, edited by [`enable_locale`] when it exists.
    pub libc_locales_path: String,
    /// Regenerates the glibc locales, run in the chroot.
    pub reconfigure_locales: Cmd,
    /// `/mnt/etc/fstab`, written with [`generate_fstab`].
    pub fstab_path: String,
}

/// The files and commands that configure the target for `hostname`,
/// `timezone` and `locale`.
pub fn system_files(hostname: &str, timezone: &str, locale: &str) -> (r: SystemFiles)
    ensures
        r.hostname_path@ == target_join("etc/hostname"@),
        r.hostname_contents@ == hostname@ + "\n"@,
        r.localtime_link@ == ("chroot"@, seq![
            "/mnt"@,
            "ln"@,
            "-sf"@,
            "/usr/share/zoneinfo/"@ + timezone@,
            "/etc/localtime"@,
        ]),
        r.locale_conf_path@ == target_join("etc/locale.conf"@),
        r.locale_conf_contents@ == "LANG="@ + locale@ + "\n"@,
        r.libc_locales_path@ == target_join("etc/default/libc-locales"@),
        r.reconfigure_locales@ == ("chroot"@, seq![
            "/mnt"@,
            "xbps-reconfigure"@,
            "-f"@,
            "glibc-locales"@,
        ]),
        r.fstab_path@ == target_join("etc/fstab"@),
{
    let zone = crate::text::cat("/usr/share/zoneinfo/", timezone);
    let link = run_chroot(&["ln", "-sf", zone.as_str(), "/etc/localtime"]);
    let reconf = run_chroot(&["xbps-reconfigure", "-f", "glibc-locales"]);
    proof {
        assert(link@.1 =~= seq![
            "/mnt"@,
            "ln"@,
            "-sf"@,
            "/usr/share/zoneinfo/"@ + timezone@,
            "/etc/localtime"@,
        ]);
        assert(reconf@.1 =~= seq!["/mnt"@, "xbps-reconfigure"@, "-f"@, "glibc-locales"@]);
    }
    SystemFiles {
        hostname_path: resolve_in_target("etc/hostname"),
        hostname_contents: crate::text::cat(hostname, "\n"),
        localtime_link: link,
        locale_conf_path: resolve_in_target("etc/locale.conf"),
        locale_conf_contents: crate::text::cat3("LANG=", locale, "\n"),
        libc_locales_path: resolve_in_target("etc/default/libc-locales"),
        reconfigure_locales: reconf,
        fstab_path: resolve_in_target("etc/fstab"),
    }
}

} // verus!
