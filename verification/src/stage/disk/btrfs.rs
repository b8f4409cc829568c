//! Creating the BTRFS subvolumes of a layout.

use vstd::prelude::*;
use crate::interact::{cmd_step_views, note, CmdStep, CmdStepView};
use crate::text::decimal;
use crate::types::{subvol_views, BtrfsLayout, FsType};
use super::format::{mkfs_command, mkfs_for};
use crate::ui::Level;
use crate::util::command::Cmd;

verus! {

/// Where the fresh BTRFS filesystem is mounted while its subvolumes are made.
pub const BTRFS_SETUP_DIR: &'static str = "/tmp/btrfs-setup";

pub open spec fn subvolume_create(name: Seq<char>) -> (Seq<char>, Seq<Seq<char>>) {
    ("btrfs"@, seq!["subvolume"@, "create"@, BTRFS_SETUP_DIR@ + "/"@ + name])
}

/// Creating one subvolume, announced with its mountpoint.
pub open spec fn subvol_step(sv: (Seq<char>, Seq<char>)) -> CmdStepView {
    (Some((Level::Info, "  subvolume: "@ + sv.0 + " → /"@ + sv.1)), subvolume_create(sv.0), None)
}

pub open spec fn subvol_steps(svs: Seq<(Seq<char>, Seq<char>)>) -> Seq<CmdStepView> {
    svs.map_values(|sv: (Seq<char>, Seq<char>)| subvol_step(sv))
}

/// Formatting `device` as BTRFS, announced.
pub open spec fn btrfs_format_step(device: Seq<char>) -> CmdStepView {
    (
        Some((Level::Status, "Formatting "@ + device + " as "@ + FsType::Btrfs.label() + "..."@)),
        mkfs_for(device, FsType::Btrfs),
        None,
    )
}

/// Format `device` as BTRFS, mount it at the setup directory, create every
/// subvolume of the layout there, and unmount it again (also when a creation
/// fails). The format erases the device, so it runs only once the user has
/// agreed to that; without it the subvolumes go onto the filesystem already
/// on the device.
pub struct SubvolumePlan {
    /// `mkfs.btrfs -f <device>`, with the line printed before it.
    pub format: CmdStep,
    /// The line printed first.
    pub announce: String,
    pub setup_dir: String,
    pub mount: Cmd,
    pub creates: Vec<CmdStep>,
    pub unmount: Cmd,
}

/// The steps that format `device` as BTRFS and create all subvolumes of
/// `layout` on it.
pub fn create_subvolumes(device: &str, layout: BtrfsLayout) -> (r: SubvolumePlan)
    ensures
        r.format@ == btrfs_format_step(device@),
        r.announce@ == "Creating "@ + decimal(layout.subvolume_specs().len()) + " BTRFS subvolume(s) on "@
            + device@ + "..."@,
        r.setup_dir@ == BTRFS_SETUP_DIR@,
        r.mount@ == ("mount"@, seq![device@, BTRFS_SETUP_DIR@]),
        cmd_step_views(r.creates@) == subvol_steps(layout.subvolume_specs()),
        r.unmount@ == ("umount"@, seq![BTRFS_SETUP_DIR@]),
{
    let svs = layout.subvolumes();
    let ghost specs = layout.subvolume_specs();
    let mut creates: Vec<CmdStep> = Vec::new();
    let mut i: usize = 0;
    while i < svs.len()
        invariant
            i <= svs@.len(),
            subvol_views(svs@) == specs,
            cmd_step_views(creates@) == subvol_steps(specs.subrange(0, i as int)),
        decreases svs@.len() - i,
    {
        let sv = svs[i];
        let path = crate::text::cat3(BTRFS_SETUP_DIR, "/", sv.name);
        let c = Cmd::new("btrfs", &["subvolume", "create", path.as_str()]);
        let mut text = String::from_str("  subvolume: ");
        text.append(sv.name);
        text.append(" → /");
        text.append(sv.mountpoint);
        let step = CmdStep { note: Some(note(Level::Info, text)), cmd: c, failure_context: None };
        proof {
            assert(specs[i as int] == (sv.name@, sv.mountpoint@));
            assert(c@.1 =~= subvolume_create(sv.name@).1);
            assert(step@ == subvol_step(specs[i as int]));
        }
        let ghost before = creates@;
        creates.push(step);
        proof {
            assert(cmd_step_views(creates@) =~= cmd_step_views(before).push(step@));
            assert(cmd_step_views(creates@) =~= subvol_steps(specs.subrange(0, i + 1)));
        }
        i += 1;
    }
    assert(specs.subrange(0, svs@.len() as int) =~= specs);
    let mount = Cmd::new("mount", &[device, BTRFS_SETUP_DIR]);
    let unmount = Cmd::new("umount", &[BTRFS_SETUP_DIR]);
    assert(mount@.1 =~= seq![device@, BTRFS_SETUP_DIR@]);
    assert(unmount@.1 =~= seq![BTRFS_SETUP_DIR@]);
    let count = crate::text::decimal_string(svs.len() as u64);
    let mut announce = String::from_str("Creating ");
    announce.append(count.as_str());
    announce.append(" BTRFS subvolume(s) on ");
    announce.append(device);
    announce.append("...");
    let mut format_text = String::from_str("Formatting ");
    format_text.append(device);
    format_text.append(" as ");
    format_text.append(FsType::Btrfs.as_str());
    format_text.append("...");
    let format = CmdStep {
        note: Some(note(Level::Status, format_text)),
        cmd: mkfs_command(device, FsType::Btrfs),
        failure_context: None,
    };
    SubvolumePlan {
        format,
        announce,
        setup_dir: String::from_str(BTRFS_SETUP_DIR),
        mount,
        creates,
        unmount,
    }
}

} // verus!
