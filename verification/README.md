# void_bootstrap

An interactive installer for Void Linux, written in Verus. The library under
`src/` holds everything the installer decides, each function proved against
its contract:

- `types`, `validation`, `context`, `text`: the installer's choices, the
  checks on what the user types, paths below the target, string helpers.
- `stage::disk` and `stage::mount`: the disk setup and the mounting stage as
  state machines (state and event in, next state and action out), with laws
  that every destructive step follows the user's consent.
- `stage::configure`, `stage::resume`, `stage::base_install`,
  `stage::bootloader`, `stage::users`, `stage::repos`, `stage::chroot`: the
  commands and file contents of each stage, and the rebuilding of the install
  context from a mounted target.
- `stage` itself: the order of the stages and what resuming skips.

`app/` is the program around it: it reads the terminal and the disks, runs the
commands the library hands it, and reports back what came of them.
`tests/` runs the library on concrete values.
