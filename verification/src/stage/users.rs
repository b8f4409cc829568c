//! Users, passwords and services.

use vstd::prelude::*;
use crate::interact::{note, Note};
use crate::ui::Level;
use crate::util::command::{run_chroot, Cmd};

verus! {

/// What follows an attempt to set a password.
#[derive(Debug)]
pub enum PasswordNext {
    Done,
    /// `passwd` refused the input (e.g. the two entries differ): print the
    /// warning and run the same command again.
    Retry { warning: Note, again: Cmd },
}

pub open spec fn password_warning() -> Seq<char> {
    "Password was not set. Please try again."@
}

/// Retry `passwd` until the user enters a valid, matching password: after
/// the run of `attempt`, done when it succeeded, else a warning and the same
/// command again, however often it fails.
pub fn set_password(attempt: Cmd, attempt_succeeded: bool) -> (r: PasswordNext)
    ensures
        attempt_succeeded ==> r is Done,
        !attempt_succeeded ==> (r matches PasswordNext::Retry { warning, again } && warning@ == (
            Level::Warning,
            password_warning(),
        ) && again@ == attempt@),
{
    if attempt_succeeded {
        PasswordNext::Done
    } else {
        PasswordNext::Retry {
            warning: note(Level::Warning, String::from_str("Password was not set. Please try again.")),
            again: attempt,
        }
    }
}

/// The steps of the users stage, in order.
pub struct UsersPlan {
    pub root_password: Cmd,
    pub add_user: Cmd,
    pub user_password: Cmd,
    pub sudoers_path: String,
    pub sudoers_contents: String,
    /// File mode of the sudoers snippet.
    pub sudoers_mode: u32,
    /// Service links; their failures are ignored.
    pub services: Vec<Cmd>,
}

pub open spec fn in_chroot(args: Seq<Seq<char>>) -> (Seq<char>, Seq<Seq<char>>) {
    ("chroot"@, seq!["/mnt"@] + args)
}

/// Set the root password, create `username` (in the usual groups) and its
/// password, let the `wheel` group use sudo, and enable dbus and
/// NetworkManager.
pub fn run(username: &str) -> (r: UsersPlan)
    ensures
        r.root_password@ == in_chroot(seq!["passwd"@]),
        r.add_user@ == in_chroot(seq![
            "useradd"@,
            "-m"@,
            "-s"@,
            "/bin/bash"@,
            "-G"@,
            "wheel,audio,video,cdrom,input"@,
            username@,
        ]),
        r.user_password@ == in_chroot(seq!["passwd"@, username@]),
        r.sudoers_path@ == "/mnt/etc/sudoers.d/wheel"@,
        r.sudoers_contents@ == "%wheel ALL=(ALL:ALL) ALL\n"@,
        r.sudoers_mode == 0o440,
        r.services@.len() == 2,
        r.services@[0]@ == in_chroot(seq!["ln"@, "-s"@, "/etc/sv/dbus"@, "/var/service/"@]),
        r.services@[1]@ == in_chroot(
            seq!["ln"@, "-s"@, "/etc/sv/NetworkManager"@, "/var/service/"@],
        ),
{
    let root_password = run_chroot(&["passwd"]);
    let add_user = run_chroot(
        &["useradd", "-m", "-s", "/bin/bash", "-G", "wheel,audio,video,cdrom,input", username],
    );
    let user_password = run_chroot(&["passwd", username]);
    let dbus = run_chroot(&["ln", "-s", "/etc/sv/dbus", "/var/service/"]);
    let nm = run_chroot(&["ln", "-s", "/etc/sv/NetworkManager", "/var/service/"]);
    proof {
        assert(root_password@.1 =~= in_chroot(seq!["passwd"@]).1);
        assert(add_user@.1 =~= in_chroot(seq![
            "useradd"@,
            "-m"@,
            "-s"@,
            "/bin/bash"@,
            "-G"@,
            "wheel,audio,video,cdrom,input"@,
            username@,
        ]).1);
        assert(user_password@.1 =~= in_chroot(seq!["passwd"@, username@]).1);
        assert(dbus@.1 =~= in_chroot(seq!["ln"@, "-s"@, "/etc/sv/dbus"@, "/var/service/"@]).1);
        assert(nm@.1 =~= in_chroot(
            seq!["ln"@, "-s"@, "/etc/sv/NetworkManager"@, "/var/service/"@],
        ).1);
    }
    let mut services: Vec<Cmd> = Vec::new();
    services.push(dbus);
    services.push(nm);
    UsersPlan {
        root_password,
        add_user,
        user_password,
        sudoers_path: String::from_str("/mnt/etc/sudoers.d/wheel"),
        sudoers_contents: String::from_str("%wheel ALL=(ALL:ALL) ALL\n"),
        sudoers_mode: 0o440,
        services,
    }
}

} // verus!
