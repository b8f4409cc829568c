//! Verified core of an interactive Void Linux installer: the rules that
//! decide partition names, mount options, fstab contents, configuration
//! file edits, input validation and the order of the install stages.

pub mod text;
pub mod types;
pub mod validation;
pub mod context;
pub mod error;
pub mod util;
pub mod stage;
pub mod ui;
pub mod interact;
