//! LVM on the Linux partition: one volume group, one root volume.

use vstd::prelude::*;
use crate::types::{LV_ROOT, VG_NAME};
use crate::util::command::Cmd;

verus! {

/// The root logical volume's device path.
pub open spec fn lv_path() -> Seq<char> {
    "/dev/"@ + VG_NAME@ + "/"@ + LV_ROOT@
}

/// The commands that set up LVM, to run in order, and the root device they
/// create.
pub struct LvmPlan {
    pub pvcreate: Cmd,
    pub vgcreate: Cmd,
    pub lvcreate: Cmd,
    pub root_device: String,
}

/// Set up LVM on the given partition: a Physical Volume, a Volume Group
/// (`vg_void`) and a single Logical Volume (`lv_root`) spanning all of it.
pub fn setup(partition: &str) -> (r: LvmPlan)
    ensures
        r.pvcreate@ == ("pvcreate"@, seq!["-f"@, partition@]),
        r.vgcreate@ == ("vgcreate"@, seq![VG_NAME@, partition@]),
        r.lvcreate@ == ("lvcreate"@, seq!["-l"@, "100%FREE"@, "-n"@, LV_ROOT@, VG_NAME@]),
        r.root_device@ == lv_path(),
{
    let pv = Cmd::new("pvcreate", &["-f", partition]);
    let vg = Cmd::new("vgcreate", &[VG_NAME, partition]);
    let lv = Cmd::new("lvcreate", &["-l", "100%FREE", "-n", LV_ROOT, VG_NAME]);
    assert(pv@.1 =~= seq!["-f"@, partition@]);
    assert(vg@.1 =~= seq![VG_NAME@, partition@]);
    assert(lv@.1 =~= seq!["-l"@, "100%FREE"@, "-n"@, LV_ROOT@, VG_NAME@]);
    LvmPlan { pvcreate: pv, vgcreate: vg, lvcreate: lv, root_device: root_device_path() }
}

/// The root logical volume's device path, `/dev/vg_void/lv_root`.
pub fn root_device_path() -> (r: String)
    ensures
        r@ == lv_path(),
{
    let mut path = String::from_str("/dev/");
    path.append(VG_NAME);
    path.append("/");
    path.append(LV_ROOT);
    path
}

} // verus!
