//! How the installer's messages look: severity marks and ANSI colours.

use vstd::prelude::*;
use crate::text::{decimal, decimal_string, str_eq, string_views};

verus! {

/// Output settings of the terminal user interface.
#[derive(Debug, Clone, Copy)]
pub struct Ui {
    /// Whether messages are coloured.
    pub color: bool,
}

/// The severity of a message line.
#[derive(Debug, Clone, Copy, PartialEq, Eq, Structural)]
pub enum Level {
    /// Neutral progress.
    Status,
    /// Supplementary tip or background info (blue).
    Info,
    /// Positive completion of a sub-task (green).
    Success,
    /// Non-blocking caution (yellow, bold).
    Warning,
    /// Blocking failure (red, bold; printed to stderr).
    Error,
}

/// Colour is used on a terminal, unless `NO_COLOR` is set or `TERM` is `dumb`.
pub open spec fn wants_color(stdout_is_terminal: bool, no_color_set: bool, term: Option<Seq<char>>) -> bool {
    stdout_is_terminal && !no_color_set && match term {
        Some(t) => t != "dumb"@,
        None => true,
    }
}

impl Ui {
    /// The interface for a terminal: `stdout_is_terminal`, whether `NO_COLOR`
    /// is set, and the value of `TERM` (`None` when unset).
    pub fn new(stdout_is_terminal: bool, no_color_set: bool, term: Option<&str>) -> (r: Ui)
        ensures
            r.color == wants_color(stdout_is_terminal, no_color_set, match term {
                Some(t) => Some(t@),
                None => None,
            }),
    {
        let term_ok = match term {
            Some(t) => !str_eq(t, "dumb"),
            None => true,
        };
        Ui { color: stdout_is_terminal && !no_color_set && term_ok }
    }

    pub open spec fn painted(self, code: Seq<char>, text: Seq<char>) -> Seq<char> {
        if self.color {
            "\u{1b}["@ + code + "m"@ + text + "\u{1b}[0m"@
        } else {
            text
        }
    }

    /// Apply an ANSI SGR code to text, when colour is on.
    pub fn ansi(&self, code: &str, text: &str) -> (r: String)
        ensures
            r@ == self.painted(code@, text@),
    {
        if self.color {
            let mut s = String::from_str("\u{1b}[");
            s.append(code);
            s.append("m");
            s.append(text);
            s.append("\u{1b}[0m");
            s
        } else {
            String::from_str(text)
        }
    }

    /// A message line of the given severity.
    pub open spec fn message(self, level: Level, msg: Seq<char>) -> Seq<char> {
        match level {
            Level::Status => " >>"@ + " "@ + msg,
            Level::Info => self.painted("34"@, " ->"@) + " "@ + msg,
            Level::Success => self.painted("1;32"@, " >>"@) + " "@ + msg,
            Level::Warning => self.painted("1;33"@, " !!"@) + " "@ + msg,
            Level::Error => self.painted("1;31"@, " !!"@) + " "@ + msg,
        }
    }

    pub fn line(&self, level: Level, msg: &str) -> (r: String)
        ensures
            r@ == self.message(level, msg@),
    {
        let mut s = match level {
            Level::Status => String::from_str(" >>"),
            Level::Info => self.ansi("34", " ->"),
            Level::Success => self.ansi("1;32", " >>"),
            Level::Warning => self.ansi("1;33", " !!"),
            Level::Error => self.ansi("1;31", " !!"),
        };
        s.append(" ");
        s.append(msg);
        proof {
            assert(s@ =~= self.message(level, msg@));
        }
        s
    }

    /// The header of stage `num`.
    pub open spec fn step_header(self, num: nat, title: Seq<char>) -> Seq<char> {
        self.painted("1;36"@, "==> ["@ + decimal(num) + "] "@ + title)
    }

    pub fn step_line(&self, num: usize, title: &str) -> (r: String)
        ensures
            r@ == self.step_header(num as nat, title@),
    {
        let mut inner = String::from_str("==> [");
        let digits = decimal_string(num as u64);
        inner.append(digits.as_str());
        inner.append("] ");
        inner.append(title);
        self.ansi("1;36", inner.as_str())
    }

    /// A rule of forty `=` in the given colour.
    pub open spec fn rule(self, code: Seq<char>) -> Seq<char> {
        self.painted(code, "========================================"@)
    }

    /// The branding banner printed at the top of a run.
    pub open spec fn banner_text(self) -> Seq<Seq<char>> {
        seq![
            self.rule("1;36"@),
            self.painted("1;37"@, "  Void Linux Automated Bootstrap (TTY)"@),
            self.rule("1;36"@),
        ]
    }

    /// The lines of the top-of-run banner.
    pub fn banner(&self) -> (r: Vec<String>)
        ensures
            string_views(r@) == self.banner_text(),
    {
        let rule = self.ansi("1;36", "========================================");
        let title = self.ansi("1;37", "  Void Linux Automated Bootstrap (TTY)");
        let r = vec![rule.clone(), title, rule];
        assert(string_views(r@) =~= self.banner_text());
        r
    }

    /// The red warning line shown before a destructive confirmation.
    pub open spec fn destructive_warning(self, warning: Seq<char>) -> Seq<char> {
        self.painted("1;31"@, " !!"@) + " "@ + self.painted("1;31"@, warning)
    }

    pub fn destructive_line(&self, warning: &str) -> (r: String)
        ensures
            r@ == self.destructive_warning(warning@),
    {
        let mut s = self.ansi("1;31", " !!");
        s.append(" ");
        let w = self.ansi("1;31", warning);
        s.append(w.as_str());
        s
    }

    /// What is printed when the install has finished: with the firmware
    /// entry registered, how to boot it; else the steps that make Void
    /// bootable by hand. Each element is printed as a line of its own.
    pub open spec fn completion_text(self, nvram_updated: bool) -> Seq<Seq<char>> {
        let head = seq![
            ""@,
            self.rule("1;32"@),
            self.painted("1;32"@, "  Installation Complete!"@),
            self.rule("1;32"@),
        ];
        let middle = if nvram_updated {
            seq![
                self.message(Level::Success, "Void Linux has been registered in your UEFI boot menu."@),
                self.message(Level::Info, "Use your motherboard's boot menu (F12/F8) to select your OS."@),
            ]
        } else {
            seq![
                ""@,
                self.painted("1;31"@, " !! CRITICAL NEXT STEPS FOR DUAL/MULTI-BOOT"@),
                self.message(
                    Level::Warning,
                    "Because '--no-nvram' was used, Void is NOT yet in your UEFI boot list."@,
                ),
                "    Before rebooting, you must do ONE of the following to ensure you can boot Void:\n"@,
                "    A) Add to OpenCore Config:"@,
                "       Point a Misc > Entries item at \\EFI\\Void\\grubx64.efi"@,
                "       (Ensure Misc > Boot > LauncherOption is set properly if needed).\n"@,
                "    B) Register via efibootmgr (run before unmounting):"@,
                "       efibootmgr --create --disk /dev/sdX --part N \\"@,
                "         --label 'Void Linux' --loader '\\EFI\\Void\\grubx64.efi'\n"@,
                self.message(
                    Level::Info,
                    "Verify exact path with: ls /mnt/boot/efi/EFI/Void/ before registering"@,
                ),
            ]
        };
        let tail = seq![
            ""@,
            self.message(Level::Info, "Once done, safely unmount and reboot:"@),
            "    umount -R /mnt && reboot"@,
            self.rule("1;32"@),
        ];
        head + middle + tail
    }

    /// The lines of the completion message.
    pub fn completion(&self, nvram_updated: bool) -> (r: Vec<String>)
        ensures
            string_views(r@) == self.completion_text(nvram_updated),
    {
        let rule = self.ansi("1;32", "========================================");
        let mut r: Vec<String> = Vec::new();
        r.push(String::from_str(""));
        r.push(rule.clone());
        r.push(self.ansi("1;32", "  Installation Complete!"));
        r.push(rule.clone());
        if nvram_updated {
            r.push(self.line(Level::Success, "Void Linux has been registered in your UEFI boot menu."));
            r.push(self.line(Level::Info, "Use your motherboard's boot menu (F12/F8) to select your OS."));
        } else {
            r.push(String::from_str(""));
            r.push(self.ansi("1;31", " !! CRITICAL NEXT STEPS FOR DUAL/MULTI-BOOT"));
            r.push(
                self.line(
                    Level::Warning,
                    "Because '--no-nvram' was used, Void is NOT yet in your UEFI boot list.",
                ),
            );
            r.push(
                String::from_str(
                    "    Before rebooting, you must do ONE of the following to ensure you can boot Void:\n",
                ),
            );
            r.push(String::from_str("    A) Add to OpenCore Config:"));
            r.push(String::from_str("       Point a Misc > Entries item at \\EFI\\Void\\grubx64.efi"));
            r.push(
                String::from_str(
                    "       (Ensure Misc > Boot > LauncherOption is set properly if needed).\n",
                ),
            );
            r.push(String::from_str("    B) Register via efibootmgr (run before unmounting):"));
            r.push(String::from_str("       efibootmgr --create --disk /dev/sdX --part N \\"));
            r.push(
                String::from_str(
                    "         --label 'Void Linux' --loader '\\EFI\\Void\\grubx64.efi'\n",
                ),
            );
            r.push(
                self.line(
                    Level::Info,
                    "Verify exact path with: ls /mnt/boot/efi/EFI/Void/ before registering",
                ),
            );
        }
        r.push(String::from_str(""));
        r.push(self.line(Level::Info, "Once done, safely unmount and reboot:"));
        r.push(String::from_str("    umount -R /mnt && reboot"));
        r.push(rule);
        assert(string_views(r@) =~= self.completion_text(nvram_updated));
        r
    }
}

} // verus!
