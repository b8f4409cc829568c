//! Why an install step could not go on.

use vstd::prelude::*;

verus! {

/// Which probe of the mounted target failed.
#[derive(Debug, Clone, Copy, PartialEq, Eq, Structural)]
pub enum Probe {
    RootDevice,
    RootFsType,
    EfiDevice,
}

#[derive(Debug)]
pub enum InstallError {
    /// An external command failed; its message.
    CommandFailed(String),
    /// `findmnt` printed nothing for `field` of `mountpoint`.
    EmptyField { field: String, mountpoint: String },
    /// `blkid` printed no UUID for the partition.
    MissingUuid(String),
    /// The root filesystem type is none the installer supports.
    UnsupportedFilesystem(String),
    /// A probe of the mounted target failed for the given cause.
    Cannot(Probe, Box<InstallError>),
    /// The user declined to wipe the disk for automated partitioning.
    PartitioningCancelled,
    /// A selection that is none of the offered options; the parser's message.
    InvalidChoice(String),
    /// An answer that does not fit the question asked.
    UnexpectedEvent,
    /// The target is mounted and the user chose not to unmount it.
    TargetMounted,
    /// The target is still mounted after `umount -R`.
    UnmountIncomplete,
}

/// The abstract content of an [`InstallError`].
pub enum ErrorView {
    CommandFailed(Seq<char>),
    EmptyField(Seq<char>, Seq<char>),
    MissingUuid(Seq<char>),
    UnsupportedFilesystem(Seq<char>),
    Cannot(Probe, Box<ErrorView>),
    PartitioningCancelled,
    InvalidChoice(Seq<char>),
    UnexpectedEvent,
    TargetMounted,
    UnmountIncomplete,
}

impl InstallError {
    pub open spec fn view(&self) -> ErrorView
        decreases self,
    {
        match self {
            InstallError::CommandFailed(m) => ErrorView::CommandFailed(m@),
            InstallError::EmptyField { field, mountpoint } => ErrorView::EmptyField(
                field@,
                mountpoint@,
            ),
            InstallError::MissingUuid(p) => ErrorView::MissingUuid(p@),
            InstallError::UnsupportedFilesystem(f) => ErrorView::UnsupportedFilesystem(f@),
            InstallError::Cannot(p, cause) => ErrorView::Cannot(*p, Box::new(cause.view())),
            InstallError::PartitioningCancelled => ErrorView::PartitioningCancelled,
            InstallError::InvalidChoice(m) => ErrorView::InvalidChoice(m@),
            InstallError::UnexpectedEvent => ErrorView::UnexpectedEvent,
            InstallError::TargetMounted => ErrorView::TargetMounted,
            InstallError::UnmountIncomplete => ErrorView::UnmountIncomplete,
        }
    }
}

/// The outcome of running an external command: its standard output, or
/// the message of its failure.
pub open spec fn output_view(o: &Result<String, String>) -> Result<Seq<char>, Seq<char>> {
    match o {
        Ok(s) => Ok(s@),
        Err(m) => Err(m@),
    }
}

} // verus!
