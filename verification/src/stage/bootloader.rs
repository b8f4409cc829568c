//! GRUB installation.

use vstd::prelude::*;
use crate::interact::{note, note_views, Ask, AskView, Note};
use crate::ui::Level;
use crate::text::{contains, ends_with, occurs_at};

verus! {

/// The `grub-install` command line: `--no-nvram` when the firmware boot
/// menu must not be touched.
pub open spec fn grub_install_line(update_nvram: bool) -> Seq<char> {
    "grub-install --target=x86_64-efi --efi-directory=/boot/efi --bootloader-id=Void"@ + if update_nvram {
        ""@
    } else {
        " --no-nvram"@
    }
}

pub open spec fn script_head() -> Seq<char> {
    "echo \"Generating device.map...\"\ni=0; for d in /sys/block/sd* /sys/block/nvme* /sys/block/vd* /sys/block/mmcblk*; do\n  [ -e \"$d\" ] || continue\n  name=$(basename \"$d\")\n  echo \"(hd$i) /dev/$name\"\n  i=$((i+1))\ndone > /boot/grub/device.map\ncat /boot/grub/device.map\n"@
}

pub open spec fn script_tail() -> Seq<char> {
    " && \\\nxbps-reconfigure -fa && \\\ngrub-mkconfig -o /boot/grub/grub.cfg\nrm -f /boot/grub/device.map"@
}

/// The shell script run inside the target: write a `device.map` so
/// `grub-probe` can name the disks, install GRUB, regenerate the initramfs
/// and the GRUB configuration, and remove the `device.map` again.
pub open spec fn grub_script(update_nvram: bool) -> Seq<char> {
    script_head() + grub_install_line(update_nvram) + script_tail()
}

/// The question whether to register Void in the firmware boot menu.
pub open spec fn register_prompt() -> Seq<char> {
    "Register Void in motherboard UEFI Boot Menu? (Choose 'Yes' if using F12 to select OS)"@
}

/// What comes before the registration: without EFI variables, why there is
/// none; with them, the question.
pub struct Registration {
    pub notes: Vec<Note>,
    /// The question to ask; its answer is `register_confirmed` of [`run`].
    pub ask: Option<Ask>,
}

/// The registration question is asked exactly when the EFI variables are
/// accessible; otherwise the user is told that booting in BIOS mode rules
/// it out.
pub fn registration(efi_vars_exist: bool) -> (r: Registration)
    ensures
        efi_vars_exist ==> note_views(r.notes@) == Seq::<(Level, Seq<char>)>::empty() && (r.ask matches Some(
            a,
        ) && a@ == AskView::Confirm(register_prompt(), true)),
        !efi_vars_exist ==> r.ask is None && note_views(r.notes@) == seq![
            (Level::Warning, "/sys/firmware/efi/efivars not found."@),
            (
                Level::Info,
                "It appears you booted the installer in Legacy (BIOS) mode instead of UEFI."@,
            ),
            (
                Level::Info,
                "NVRAM registration will be disabled because EFI variables are inaccessible."@,
            ),
        ],
{
    let mut notes: Vec<Note> = Vec::new();
    if efi_vars_exist {
        assert(note_views(notes@) =~= Seq::<(Level, Seq<char>)>::empty());
        Registration {
            notes,
            ask: Some(
                Ask::Confirm {
                    prompt: String::from_str(
                        "Register Void in motherboard UEFI Boot Menu? (Choose 'Yes' if using F12 to select OS)",
                    ),
                    default: true,
                },
            ),
        }
    } else {
        notes.push(note(Level::Warning, String::from_str("/sys/firmware/efi/efivars not found.")));
        notes.push(
            note(
                Level::Info,
                String::from_str(
                    "It appears you booted the installer in Legacy (BIOS) mode instead of UEFI.",
                ),
            ),
        );
        notes.push(
            note(
                Level::Info,
                String::from_str(
                    "NVRAM registration will be disabled because EFI variables are inaccessible.",
                ),
            ),
        );
        assert(note_views(notes@) =~= seq![
            (Level::Warning, "/sys/firmware/efi/efivars not found."@),
            (
                Level::Info,
                "It appears you booted the installer in Legacy (BIOS) mode instead of UEFI."@,
            ),
            (
                Level::Info,
                "NVRAM registration will be disabled because EFI variables are inaccessible."@,
            ),
        ]);
        Registration { notes, ask: None }
    }
}

/// What the bootloader stage does.
pub struct BootloaderPlan {
    /// Whether Void is registered in the firmware boot menu.
    pub update_nvram: bool,
    pub script: String,
}

/// The bootloader stage, given whether EFI variables are accessible and
/// the answer to the [`registration`] question (`false` when it was not
/// asked).
pub fn run(efi_vars_exist: bool, register_confirmed: bool) -> (r: BootloaderPlan)
    ensures
        r.update_nvram == (efi_vars_exist && register_confirmed),
        r.script@ == grub_script(efi_vars_exist && register_confirmed),
{
    let update_nvram = efi_vars_exist && register_confirmed;
    let mut script = String::from_str(
        "echo \"Generating device.map...\"\ni=0; for d in /sys/block/sd* /sys/block/nvme* /sys/block/vd* /sys/block/mmcblk*; do\n  [ -e \"$d\" ] || continue\n  name=$(basename \"$d\")\n  echo \"(hd$i) /dev/$name\"\n  i=$((i+1))\ndone > /boot/grub/device.map\ncat /boot/grub/device.map\n",
    );
    script.append("grub-install --target=x86_64-efi --efi-directory=/boot/efi --bootloader-id=Void");
    if !update_nvram {
        script.append(" --no-nvram");
    } else {
        script.append("");
    }
    script.append(
        " && \\\nxbps-reconfigure -fa && \\\ngrub-mkconfig -o /boot/grub/grub.cfg\nrm -f /boot/grub/device.map",
    );
    proof {
        assert(script@ =~= grub_script(update_nvram));
    }
    BootloaderPlan { update_nvram, script }
}

/// GRUB is installed for the EFI partition under the id `Void`; only when
/// that succeeds is the initramfs regenerated, and only when that succeeds
/// is `grub.cfg` generated; the device map is removed in any case at the
/// end. The firmware boot menu is left alone (`--no-nvram`) when
/// registration is off.
pub proof fn law_grub_script_order(update_nvram: bool)
    ensures
        contains(
            grub_script(update_nvram),
            "grub-install --target=x86_64-efi --efi-directory=/boot/efi --bootloader-id=Void"@ + (if update_nvram {
                ""@
            } else {
                " --no-nvram"@
            }) + " && \\\nxbps-reconfigure -fa && \\\ngrub-mkconfig -o /boot/grub/grub.cfg\n"@,
        ),
        ends_with(grub_script(update_nvram), "\nrm -f /boot/grub/device.map"@),
{
    let head = script_head();
    let install = grub_install_line(update_nvram);
    let chained = install + " && \\\nxbps-reconfigure -fa && \\\ngrub-mkconfig -o /boot/grub/grub.cfg\n"@;
    let s = grub_script(update_nvram);
    reveal_strlit(" && \\\nxbps-reconfigure -fa && \\\ngrub-mkconfig -o /boot/grub/grub.cfg\nrm -f /boot/grub/device.map");
    reveal_strlit(" && \\\nxbps-reconfigure -fa && \\\ngrub-mkconfig -o /boot/grub/grub.cfg\n");
    reveal_strlit("\nrm -f /boot/grub/device.map");
    reveal_strlit("");
    reveal_strlit(" --no-nvram");
    let tail = script_tail();
    assert(tail =~= " && \\\nxbps-reconfigure -fa && \\\ngrub-mkconfig -o /boot/grub/grub.cfg\n"@ + "\nrm -f /boot/grub/device.map"@.drop_first());
    assert(s.subrange(head.len() as int, (head.len() + chained.len()) as int) =~= chained);
    assert(occurs_at(s, chained, head.len() as int));
    assert(s.subrange(s.len() - "\nrm -f /boot/grub/device.map"@.len(), s.len() as int)
        =~= "\nrm -f /boot/grub/device.map"@);
}

} // verus!
