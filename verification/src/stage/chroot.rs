//! The chroot environment: the host filesystems bound into the target, and
//! their teardown.

use vstd::prelude::*;
use crate::context::TARGET;
use crate::interact::CmdView;
use crate::util::command::Cmd;

verus! {

/// The host filesystems that the chroot needs, in the order they are bound.
pub open spec fn bound_dirs() -> Seq<Seq<char>> {
    seq!["dev"@, "proc"@, "sys"@, "run"@]
}

/// Binding `/<dir>` into the target, then making the bind a recursive slave.
pub open spec fn bind_cmds(dir: Seq<char>) -> Seq<CmdView> {
    seq![
        ("mount"@, seq!["--rbind"@, "/"@ + dir, "/mnt/"@ + dir]),
        ("mount"@, seq!["--make-rslave"@, "/mnt/"@ + dir]),
    ]
}

pub open spec fn unbind_cmd(dir: Seq<char>) -> CmdView {
    ("umount"@, seq!["-R"@, "/mnt/"@ + dir])
}

/// What entering and leaving the chroot does.
pub struct ChrootPlan {
    /// Run in order; the first failure stops entering (the teardown still runs).
    pub binds: Vec<Cmd>,
    /// The host's DNS configuration, copied over the target's when it exists.
    pub resolv_source: String,
    pub resolv_target: String,
    /// Run in order when leaving, each whatever came of the others.
    pub teardown: Vec<Cmd>,
}

pub open spec fn cmd_views(v: Seq<Cmd>) -> Seq<CmdView> {
    v.map_values(|c: Cmd| c@)
}

fn bind(dir: &str) -> (r: (Cmd, Cmd))
    ensures
        seq![r.0@, r.1@] == bind_cmds(dir@),
{
    let host = crate::text::cat("/", dir);
    let target = crate::text::cat3(TARGET, "/", dir);
    let a = Cmd::new("mount", &["--rbind", host.as_str(), target.as_str()]);
    let b = Cmd::new("mount", &["--make-rslave", target.as_str()]);
    proof {
        reveal_strlit("/mnt");
        reveal_strlit("/");
        reveal_strlit("/mnt/");
        assert("/mnt"@ + "/"@ + dir@ =~= "/mnt/"@ + dir@);
        assert(a@.1 =~= bind_cmds(dir@)[0].1);
        assert(b@.1 =~= bind_cmds(dir@)[1].1);
    }
    (a, b)
}

fn unbind(dir: &str) -> (r: Cmd)
    ensures
        r@ == unbind_cmd(dir@),
{
    let target = crate::text::cat3(TARGET, "/", dir);
    let r = Cmd::new("umount", &["-R", target.as_str()]);
    proof {
        reveal_strlit("/mnt");
        reveal_strlit("/");
        reveal_strlit("/mnt/");
        assert("/mnt"@ + "/"@ + dir@ =~= "/mnt/"@ + dir@);
        assert(r@.1 =~= unbind_cmd(dir@).1);
    }
    r
}

/// Bind `/dev`, `/proc`, `/sys` and `/run` into the target (each then made
/// a recursive slave), copy the DNS configuration, and on leaving unmount
/// them in the reverse order.
pub fn chroot_plan() -> (r: ChrootPlan)
    ensures
        cmd_views(r.binds@) == bind_cmds(bound_dirs()[0]) + bind_cmds(bound_dirs()[1]) + bind_cmds(
            bound_dirs()[2],
        ) + bind_cmds(bound_dirs()[3]),
        r.resolv_source@ == "/etc/resolv.conf"@,
        r.resolv_target@ == "/mnt/etc/resolv.conf"@,
        cmd_views(r.teardown@) == seq![
            unbind_cmd(bound_dirs()[3]),
            unbind_cmd(bound_dirs()[2]),
            unbind_cmd(bound_dirs()[1]),
            unbind_cmd(bound_dirs()[0]),
        ],
{
    let (d0, d1) = bind("dev");
    let (p0, p1) = bind("proc");
    let (s0, s1) = bind("sys");
    let (r0, r1) = bind("run");
    let binds = vec![d0, d1, p0, p1, s0, s1, r0, r1];
    assert(cmd_views(binds@) =~= bind_cmds("dev"@) + bind_cmds("proc"@) + bind_cmds("sys"@)
        + bind_cmds("run"@));
    let teardown = vec![unbind("run"), unbind("sys"), unbind("proc"), unbind("dev")];
    assert(cmd_views(teardown@) =~= seq![
        unbind_cmd("run"@),
        unbind_cmd("sys"@),
        unbind_cmd("proc"@),
        unbind_cmd("dev"@),
    ]);
    ChrootPlan {
        binds,
        resolv_source: String::from_str("/etc/resolv.conf"),
        resolv_target: String::from_str("/mnt/etc/resolv.conf"),
        teardown,
    }
}

} // verus!
