//! Additional repositories: XLibre.

use vstd::prelude::*;
use crate::util::command::{run_chroot, Cmd};
use crate::stage::users::in_chroot;

verus! {

pub const XLIBRE_KEY_URL: &'static str = "https://github.com/xlibre-void/xlibre/raw/refs/heads/main/repo-keys/x86_64/00:ca:42:57:c9:c0:9a:ec:94:b4:7d:97:e5:a9:aa:1e.plist";

pub const XLIBRE_KEY_PATH: &'static str = "/var/db/xbps/keys/00:ca:42:57:c9:c0:9a:ec:94:b4:7d:97:e5:a9:aa:1e.plist";

pub const XLIBRE_REPO_URL: &'static str = "https://github.com/xlibre-void/xlibre/releases/latest/download/";

/// The steps that add the XLibre repository, in order.
pub struct XlibrePlan {
    /// `wget` is not in a fresh base install: install it in the chroot.
    pub install_wget: Cmd,
    pub download_key: Cmd,
    pub conf_dir: String,
    pub conf_path: String,
    pub conf_contents: String,
}

pub fn install_xlibre() -> (r: XlibrePlan)
    ensures
        r.install_wget@ == in_chroot(seq!["xbps-install"@, "-y"@, "wget"@]),
        r.download_key@ == in_chroot(seq!["wget"@, "-O"@, XLIBRE_KEY_PATH@, XLIBRE_KEY_URL@]),
        r.conf_dir@ == "/mnt/etc/xbps.d"@,
        r.conf_path@ == "/mnt/etc/xbps.d/99-repository-xlibre.conf"@,
        r.conf_contents@ == "repository="@ + XLIBRE_REPO_URL@ + "\n"@,
{
    let install_wget = run_chroot(&["xbps-install", "-y", "wget"]);
    let download_key = run_chroot(&["wget", "-O", XLIBRE_KEY_PATH, XLIBRE_KEY_URL]);
    proof {
        assert(install_wget@.1 =~= in_chroot(seq!["xbps-install"@, "-y"@, "wget"@]).1);
        assert(download_key@.1 =~= in_chroot(
            seq!["wget"@, "-O"@, XLIBRE_KEY_PATH@, XLIBRE_KEY_URL@],
        ).1);
    }
    XlibrePlan {
        install_wget,
        download_key,
        conf_dir: String::from_str("/mnt/etc/xbps.d"),
        conf_path: String::from_str("/mnt/etc/xbps.d/99-repository-xlibre.conf"),
        conf_contents: crate::text::cat3("repository=", XLIBRE_REPO_URL, "\n"),
    }
}

/// The repositories stage: XLibre only when the user asked for it.
pub fn run(add_xlibre: bool) -> (r: Option<XlibrePlan>)
    ensures
        r is Some <==> add_xlibre,
        r matches Some(p) ==> {
            &&& p.install_wget@ == in_chroot(seq!["xbps-install"@, "-y"@, "wget"@])
            &&& p.download_key@ == in_chroot(
                seq!["wget"@, "-O"@, XLIBRE_KEY_PATH@, XLIBRE_KEY_URL@],
            )
            &&& p.conf_dir@ == "/mnt/etc/xbps.d"@
            &&& p.conf_path@ == "/mnt/etc/xbps.d/99-repository-xlibre.conf"@
            &&& p.conf_contents@ == "repository="@ + XLIBRE_REPO_URL@ + "\n"@
        },
{
    if add_xlibre {
        Some(install_xlibre())
    } else {
        None
    }
}

} // verus!
