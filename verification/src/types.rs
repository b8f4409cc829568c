//! The installer's choices (filesystem, GPU vendor, partitioning strategy,
//! volume manager, BTRFS layout), their labels, parsers and the data each
//! choice carries.

use vstd::prelude::*;
use crate::text::{cat3, str_eq, str_views};

verus! {

/// Repository that the base system is installed from.
pub const XBPS_REPO: &'static str = "https://repo-default.voidlinux.org/current";

/// Default Volume Group name used by the installer.
pub const VG_NAME: &'static str = "vg_void";

/// Default root Logical Volume name.
pub const LV_ROOT: &'static str = "lv_root";

/// Encodings accepted in a locale name.
pub open spec fn valid_encodings() -> Seq<Seq<char>> {
    seq!["UTF-8"@, "ISO8859-1"@, "ISO8859-15"@, "EUC-JP"@, "EUC-KR"@]
}

pub fn valid_encodings_list() -> (r: Vec<&'static str>)
    ensures
        str_views(r@) == valid_encodings(),
{
    let r = vec!["UTF-8", "ISO8859-1", "ISO8859-15", "EUC-JP", "EUC-KR"];
    assert(str_views(r@) =~= valid_encodings());
    r
}

/// The message with which a parser refuses `s`: `prefix`, then `s` in quotes.
pub open spec fn unknown_message(prefix: Seq<char>, s: Seq<char>) -> Seq<char> {
    prefix + s + "'"@
}

// ── Filesystem type ─────────────────────────────────────────────

#[derive(Debug, Clone, Copy, PartialEq, Eq, Structural)]
pub enum FsType {
    Ext4,
    Btrfs,
    Xfs,
}

impl FsType {
    pub open spec fn label(self) -> Seq<char> {
        match self {
            FsType::Ext4 => "ext4"@,
            FsType::Btrfs => "btrfs"@,
            FsType::Xfs => "xfs"@,
        }
    }

    pub open spec fn parsed(s: Seq<char>) -> Option<FsType> {
        if s == "ext4"@ {
            Some(FsType::Ext4)
        } else if s == "btrfs"@ {
            Some(FsType::Btrfs)
        } else if s == "xfs"@ {
            Some(FsType::Xfs)
        } else {
            None
        }
    }

    pub open spec fn root_mount_opts(self) -> Seq<char> {
        match self {
            FsType::Btrfs => "defaults,compress=zstd,space_cache=v2,subvol=@"@,
            _ => "defaults"@,
        }
    }

    pub open spec fn dump_pass(self) -> Seq<char> {
        match self {
            FsType::Btrfs => "0 0"@,
            _ => "0 1"@,
        }
    }

    pub fn as_str(self) -> (r: &'static str)
        ensures
            r@ == self.label(),
    {
        match self {
            FsType::Ext4 => "ext4",
            FsType::Btrfs => "btrfs",
            FsType::Xfs => "xfs",
        }
    }

    /// Text of the `Display` form (the same as `as_str`).
    pub fn to_string(self) -> (r: String)
        ensures
            r@ == self.label(),
    {
        String::from_str(self.as_str())
    }

    /// Mount options for the root filesystem.
    pub fn mount_opts(self) -> (r: &'static str)
        ensures
            r@ == self.root_mount_opts(),
    {
        match self {
            FsType::Btrfs => "defaults,compress=zstd,space_cache=v2,subvol=@",
            _ => "defaults",
        }
    }

    /// Mount options for an arbitrary BTRFS subvolume.
    pub fn subvol_mount_opts(self, subvol: &str) -> (r: String)
        ensures
            r@ == "defaults,compress=zstd,space_cache=v2,subvol="@ + subvol@,
    {
        crate::text::cat("defaults,compress=zstd,space_cache=v2,subvol=", subvol)
    }

    /// The dump and fsck-pass columns of an fstab entry.
    pub fn fstab_dump_pass(self) -> (r: &'static str)
        ensures
            r@ == self.dump_pass(),
    {
        match self {
            FsType::Btrfs => "0 0",
            _ => "0 1",
        }
    }

    /// Labels used in the interactive select prompt.
    pub fn select_options() -> (r: Vec<&'static str>)
        ensures
            str_views(r@) == seq!["ext4"@, "btrfs"@, "xfs"@],
    {
        let r = vec!["ext4", "btrfs", "xfs"];
        assert(str_views(r@) =~= seq!["ext4"@, "btrfs"@, "xfs"@]);
        r
    }

    /// `FromStr`: the filesystem named `s`.
    pub fn parse(s: &str) -> (r: Result<FsType, String>)
        ensures
            r matches Ok(v) ==> FsType::parsed(s@) == Some(v),
            r matches Err(e) ==> FsType::parsed(s@) is None && e@ == unknown_message(
                "Unknown filesystem type: '"@,
                s@,
            ),
    {
        if str_eq(s, "ext4") {
            Ok(FsType::Ext4)
        } else if str_eq(s, "btrfs") {
            Ok(FsType::Btrfs)
        } else if str_eq(s, "xfs") {
            Ok(FsType::Xfs)
        } else {
            Err(cat3("Unknown filesystem type: '", s, "'"))
        }
    }
}

impl std::str::FromStr for FsType {
    type Err = String;

    fn from_str(s: &str) -> (r: Result<FsType, String>)
        ensures
            r matches Ok(v) ==> FsType::parsed(s@) == Some(v),
            r matches Err(e) ==> FsType::parsed(s@) is None && e@ == unknown_message(
                "Unknown filesystem type: '"@,
                s@,
            ),
    {
        FsType::parse(s)
    }
}

// ── GPU vendor ──────────────────────────────────────────────────

#[derive(Debug, Clone, Copy, PartialEq, Eq, Structural)]
pub enum GpuVendor {
    Amd,
    Intel,
    Nvidia,
    NoGpu,
}

impl GpuVendor {
    pub open spec fn label(self) -> Seq<char> {
        match self {
            GpuVendor::Amd => "AMD"@,
            GpuVendor::Intel => "Intel"@,
            GpuVendor::Nvidia => "NVIDIA"@,
            GpuVendor::NoGpu => "None"@,
        }
    }

    pub open spec fn parsed(s: Seq<char>) -> Option<GpuVendor> {
        if s == "AMD"@ {
            Some(GpuVendor::Amd)
        } else if s == "Intel"@ {
            Some(GpuVendor::Intel)
        } else if s == "NVIDIA"@ {
            Some(GpuVendor::Nvidia)
        } else if s == "None"@ {
            Some(GpuVendor::NoGpu)
        } else {
            None
        }
    }

    /// Driver packages installed for this vendor.
    pub open spec fn driver_packages(self) -> Seq<Seq<char>> {
        match self {
            GpuVendor::Amd => seq![
                "linux-firmware-amd"@,
                "mesa-dri"@,
                "mesa-vaapi"@,
                "mesa-vulkan-radeon"@,
            ],
            GpuVendor::Intel => seq![
                "linux-firmware-intel"@,
                "mesa-dri"@,
                "mesa-vaapi"@,
                "intel-video-accel"@,
            ],
            GpuVendor::Nvidia => seq!["nvidia"@, "nvidia-libs"@],
            GpuVendor::NoGpu => seq![],
        }
    }

    pub fn packages(self) -> (r: Vec<&'static str>)
        ensures
            str_views(r@) == self.driver_packages(),
    {
        let r = match self {
            GpuVendor::Amd => vec![
                "linux-firmware-amd",
                "mesa-dri",
                "mesa-vaapi",
                "mesa-vulkan-radeon",
            ],
            GpuVendor::Intel => vec![
                "linux-firmware-intel",
                "mesa-dri",
                "mesa-vaapi",
                "intel-video-accel",
            ],
            GpuVendor::Nvidia => vec!["nvidia", "nvidia-libs"],
            GpuVendor::NoGpu => Vec::new(),
        };
        assert(str_views(r@) =~= self.driver_packages());
        r
    }

    /// Text of the `Display` form.
    pub fn to_string(self) -> (r: String)
        ensures
            r@ == self.label(),
    {
        match self {
            GpuVendor::Amd => String::from_str("AMD"),
            GpuVendor::Intel => String::from_str("Intel"),
            GpuVendor::Nvidia => String::from_str("NVIDIA"),
            GpuVendor::NoGpu => String::from_str("None"),
        }
    }

    /// Labels used in the interactive select prompt.
    pub fn select_options() -> (r: Vec<&'static str>)
        ensures
            str_views(r@) == seq!["AMD"@, "Intel"@, "NVIDIA"@, "None"@],
    {
        let r = vec!["AMD", "Intel", "NVIDIA", "None"];
        assert(str_views(r@) =~= seq!["AMD"@, "Intel"@, "NVIDIA"@, "None"@]);
        r
    }

    /// `FromStr`: the vendor named `s`.
    pub fn parse(s: &str) -> (r: Result<GpuVendor, String>)
        ensures
            r matches Ok(v) ==> GpuVendor::parsed(s@) == Some(v),
            r matches Err(e) ==> GpuVendor::parsed(s@) is None && e@ == unknown_message(
                "Unknown GPU vendor: '"@,
                s@,
            ),
    {
        if str_eq(s, "AMD") {
            Ok(GpuVendor::Amd)
        } else if str_eq(s, "Intel") {
            Ok(GpuVendor::Intel)
        } else if str_eq(s, "NVIDIA") {
            Ok(GpuVendor::Nvidia)
        } else if str_eq(s, "None") {
            Ok(GpuVendor::NoGpu)
        } else {
            Err(cat3("Unknown GPU vendor: '", s, "'"))
        }
    }
}

impl std::str::FromStr for GpuVendor {
    type Err = String;

    fn from_str(s: &str) -> (r: Result<GpuVendor, String>)
        ensures
            r matches Ok(v) ==> GpuVendor::parsed(s@) == Some(v),
            r matches Err(e) ==> GpuVendor::parsed(s@) is None && e@ == unknown_message(
                "Unknown GPU vendor: '"@,
                s@,
            ),
    {
        GpuVendor::parse(s)
    }
}

// ── Partitioning strategy ───────────────────────────────────────

#[derive(Debug, Clone, Copy, PartialEq, Eq, Structural)]
pub enum PartitionStrategy {
    Auto,
    Manual,
}

impl PartitionStrategy {
    pub open spec fn label(self) -> Seq<char> {
        match self {
            PartitionStrategy::Auto => "Automated"@,
            PartitionStrategy::Manual => "Manual"@,
        }
    }

    pub open spec fn parsed(s: Seq<char>) -> Option<PartitionStrategy> {
        if s == "Automated"@ {
            Some(PartitionStrategy::Auto)
        } else if s == "Manual"@ {
            Some(PartitionStrategy::Manual)
        } else {
            None
        }
    }

    /// Text of the `Display` form.
    pub fn to_string(self) -> (r: String)
        ensures
            r@ == self.label(),
    {
        match self {
            PartitionStrategy::Auto => String::from_str("Automated"),
            PartitionStrategy::Manual => String::from_str("Manual"),
        }
    }

    /// Labels used in the interactive select prompt.
    pub fn select_options() -> (r: Vec<&'static str>)
        ensures
            str_views(r@) == seq!["Automated"@, "Manual"@],
    {
        let r = vec!["Automated", "Manual"];
        assert(str_views(r@) =~= seq!["Automated"@, "Manual"@]);
        r
    }

    /// `FromStr`: the strategy named `s`.
    pub fn parse(s: &str) -> (r: Result<PartitionStrategy, String>)
        ensures
            r matches Ok(v) ==> PartitionStrategy::parsed(s@) == Some(v),
            r matches Err(e) ==> PartitionStrategy::parsed(s@) is None && e@ == unknown_message(
                "Unknown partition strategy: '"@,
                s@,
            ),
    {
        if str_eq(s, "Automated") {
            Ok(PartitionStrategy::Auto)
        } else if str_eq(s, "Manual") {
            Ok(PartitionStrategy::Manual)
        } else {
            Err(cat3("Unknown partition strategy: '", s, "'"))
        }
    }
}

impl std::str::FromStr for PartitionStrategy {
    type Err = String;

    fn from_str(s: &str) -> (r: Result<PartitionStrategy, String>)
        ensures
            r matches Ok(v) ==> PartitionStrategy::parsed(s@) == Some(v),
            r matches Err(e) ==> PartitionStrategy::parsed(s@) is None && e@ == unknown_message(
                "Unknown partition strategy: '"@,
                s@,
            ),
    {
        PartitionStrategy::parse(s)
    }
}

// ── Volume manager ──────────────────────────────────────────────

#[derive(Debug, Clone, Copy, PartialEq, Eq, Structural)]
pub enum VolumeManager {
    Standard,
    Lvm,
}

impl VolumeManager {
    pub open spec fn label(self) -> Seq<char> {
        match self {
            VolumeManager::Standard => "Standard"@,
            VolumeManager::Lvm => "LVM"@,
        }
    }

    pub open spec fn parsed(s: Seq<char>) -> Option<VolumeManager> {
        if s == "Standard"@ {
            Some(VolumeManager::Standard)
        } else if s == "LVM"@ {
            Some(VolumeManager::Lvm)
        } else {
            None
        }
    }

    /// Text of the `Display` form.
    pub fn to_string(self) -> (r: String)
        ensures
            r@ == self.label(),
    {
        match self {
            VolumeManager::Standard => String::from_str("Standard"),
            VolumeManager::Lvm => String::from_str("LVM"),
        }
    }

    /// Labels used in the interactive select prompt.
    pub fn select_options() -> (r: Vec<&'static str>)
        ensures
            str_views(r@) == seq!["Standard"@, "LVM"@],
    {
        let r = vec!["Standard", "LVM"];
        assert(str_views(r@) =~= seq!["Standard"@, "LVM"@]);
        r
    }

    /// `FromStr`: the volume manager named `s`.
    pub fn parse(s: &str) -> (r: Result<VolumeManager, String>)
        ensures
            r matches Ok(v) ==> VolumeManager::parsed(s@) == Some(v),
            r matches Err(e) ==> VolumeManager::parsed(s@) is None && e@ == unknown_message(
                "Unknown volume manager: '"@,
                s@,
            ),
    {
        if str_eq(s, "Standard") {
            Ok(VolumeManager::Standard)
        } else if str_eq(s, "LVM") {
            Ok(VolumeManager::Lvm)
        } else {
            Err(cat3("Unknown volume manager: '", s, "'"))
        }
    }
}

impl std::str::FromStr for VolumeManager {
    type Err = String;

    fn from_str(s: &str) -> (r: Result<VolumeManager, String>)
        ensures
            r matches Ok(v) ==> VolumeManager::parsed(s@) == Some(v),
            r matches Err(e) ==> VolumeManager::parsed(s@) is None && e@ == unknown_message(
                "Unknown volume manager: '"@,
                s@,
            ),
    {
        VolumeManager::parse(s)
    }
}

// ── BTRFS layout ────────────────────────────────────────────────

/// A single BTRFS subvolume definition.
#[derive(Debug, Clone, Copy)]
pub struct BtrfsSubvol {
    /// Subvolume name (e.g. `@`, `@home`).
    pub name: &'static str,
    /// Mount point relative to the target root (empty string = root).
    pub mountpoint: &'static str,
}

impl BtrfsSubvol {
    pub open spec fn view_pair(self) -> (Seq<char>, Seq<char>) {
        (self.name@, self.mountpoint@)
    }
}

pub open spec fn subvol_views(v: Seq<BtrfsSubvol>) -> Seq<(Seq<char>, Seq<char>)> {
    v.map_values(|sv: BtrfsSubvol| sv.view_pair())
}

#[derive(Debug, Clone, Copy, PartialEq, Eq, Structural)]
pub enum BtrfsLayout {
    Simple,
    Full,
}

impl BtrfsLayout {
    pub open spec fn label(self) -> Seq<char> {
        match self {
            BtrfsLayout::Simple => "Simple"@,
            BtrfsLayout::Full => "Full"@,
        }
    }

    pub open spec fn parsed(s: Seq<char>) -> Option<BtrfsLayout> {
        if s == "Simple"@ {
            Some(BtrfsLayout::Simple)
        } else if s == "Full"@ {
            Some(BtrfsLayout::Full)
        } else {
            None
        }
    }

    /// The (name, mountpoint) pairs of this layout's subvolumes, root first.
    pub open spec fn subvolume_specs(self) -> Seq<(Seq<char>, Seq<char>)> {
        match self {
            BtrfsLayout::Simple => seq![("@"@, ""@)],
            BtrfsLayout::Full => seq![
                ("@"@, ""@),
                ("@home"@, "home"@),
                ("@log"@, "var/log"@),
                ("@cache"@, "var/cache"@),
                ("@snapshots"@, ".snapshots"@),
            ],
        }
    }

    /// Return the subvolume definitions for this layout.
    pub fn subvolumes(self) -> (r: Vec<BtrfsSubvol>)
        ensures
            subvol_views(r@) == self.subvolume_specs(),
    {
        let r = match self {
            BtrfsLayout::Simple => vec![BtrfsSubvol { name: "@", mountpoint: "" }],
            BtrfsLayout::Full => vec![
                BtrfsSubvol { name: "@", mountpoint: "" },
                BtrfsSubvol { name: "@home", mountpoint: "home" },
                BtrfsSubvol { name: "@log", mountpoint: "var/log" },
                BtrfsSubvol { name: "@cache", mountpoint: "var/cache" },
                BtrfsSubvol { name: "@snapshots", mountpoint: ".snapshots" },
            ],
        };
        assert(subvol_views(r@) =~= self.subvolume_specs());
        r
    }

    /// Text of the `Display` form.
    pub fn to_string(self) -> (r: String)
        ensures
            r@ == self.label(),
    {
        match self {
            BtrfsLayout::Simple => String::from_str("Simple"),
            BtrfsLayout::Full => String::from_str("Full"),
        }
    }

    /// Labels used in the interactive select prompt.
    pub fn select_options() -> (r: Vec<&'static str>)
        ensures
            str_views(r@) == seq!["Simple"@, "Full"@],
    {
        let r = vec!["Simple", "Full"];
        assert(str_views(r@) =~= seq!["Simple"@, "Full"@]);
        r
    }

    /// `FromStr`: the layout named `s`.
    pub fn parse(s: &str) -> (r: Result<BtrfsLayout, String>)
        ensures
            r matches Ok(v) ==> BtrfsLayout::parsed(s@) == Some(v),
            r matches Err(e) ==> BtrfsLayout::parsed(s@) is None && e@ == unknown_message(
                "Unknown BTRFS layout: '"@,
                s@,
            ),
    {
        if str_eq(s, "Simple") {
            Ok(BtrfsLayout::Simple)
        } else if str_eq(s, "Full") {
            Ok(BtrfsLayout::Full)
        } else {
            Err(cat3("Unknown BTRFS layout: '", s, "'"))
        }
    }
}

impl std::str::FromStr for BtrfsLayout {
    type Err = String;

    fn from_str(s: &str) -> (r: Result<BtrfsLayout, String>)
        ensures
            r matches Ok(v) ==> BtrfsLayout::parsed(s@) == Some(v),
            r matches Err(e) ==> BtrfsLayout::parsed(s@) is None && e@ == unknown_message(
                "Unknown BTRFS layout: '"@,
                s@,
            ),
    {
        BtrfsLayout::parse(s)
    }
}

// ── Laws ────────────────────────────────────────────────────────

/// A filesystem's label parses back to that filesystem, and whatever parses
/// is exactly the label (the `Display` form) of the filesystem it names.
pub proof fn law_fs_type_labels_round_trip(x: FsType)
    ensures
        FsType::parsed(x.label()) == Some(x),
        forall|s: Seq<char>| #[trigger] FsType::parsed(s) is Some ==> FsType::parsed(s).unwrap().label() == s,
{
    reveal_strlit("ext4");
    assert("ext4"@.len() == 4);
    reveal_strlit("btrfs");
    assert("btrfs"@.len() == 5);
    reveal_strlit("xfs");
    assert("xfs"@.len() == 3);
}

/// A GPU vendor's label parses back to that vendor, and whatever parses is
/// exactly the label of the vendor it names.
pub proof fn law_gpu_vendor_labels_round_trip(x: GpuVendor)
    ensures
        GpuVendor::parsed(x.label()) == Some(x),
        forall|s: Seq<char>| #[trigger] GpuVendor::parsed(s) is Some ==> GpuVendor::parsed(s).unwrap().label() == s,
{
    reveal_strlit("AMD");
    assert("AMD"@.len() == 3);
    reveal_strlit("Intel");
    assert("Intel"@.len() == 5);
    reveal_strlit("NVIDIA");
    assert("NVIDIA"@.len() == 6);
    reveal_strlit("None");
    assert("None"@.len() == 4);
}

/// A partitioning strategy's label parses back to that strategy, and
/// whatever parses is exactly the label of the strategy it names.
pub proof fn law_partition_strategy_labels_round_trip(x: PartitionStrategy)
    ensures
        PartitionStrategy::parsed(x.label()) == Some(x),
        forall|s: Seq<char>| #[trigger] PartitionStrategy::parsed(s) is Some ==> PartitionStrategy::parsed(s).unwrap().label() == s,
{
    reveal_strlit("Automated");
    assert("Automated"@.len() == 9);
    reveal_strlit("Manual");
    assert("Manual"@.len() == 6);
}

/// A volume manager's label parses back to that volume manager, and
/// whatever parses is exactly the label of the volume manager it names.
pub proof fn law_volume_manager_labels_round_trip(x: VolumeManager)
    ensures
        VolumeManager::parsed(x.label()) == Some(x),
        forall|s: Seq<char>| #[trigger] VolumeManager::parsed(s) is Some ==> VolumeManager::parsed(s).unwrap().label() == s,
{
    reveal_strlit("Standard");
    assert("Standard"@.len() == 8);
    reveal_strlit("LVM");
    assert("LVM"@.len() == 3);
}

/// A BTRFS layout's label parses back to that layout, and whatever parses
/// is exactly the label of the layout it names.
pub proof fn law_btrfs_layout_labels_round_trip(x: BtrfsLayout)
    ensures
        BtrfsLayout::parsed(x.label()) == Some(x),
        forall|s: Seq<char>| #[trigger] BtrfsLayout::parsed(s) is Some ==> BtrfsLayout::parsed(s).unwrap().label() == s,
{
    reveal_strlit("Simple");
    assert("Simple"@.len() == 6);
    reveal_strlit("Full");
    assert("Full"@.len() == 4);
}

/// Each layout's first subvolume is `@` mounted at the target root, and it
/// is the only subvolume with an empty mountpoint.
pub proof fn law_btrfs_layout_root_first(layout: BtrfsLayout)
    ensures
        layout.subvolume_specs().len() >= 1,
        layout.subvolume_specs()[0] == ("@"@, ""@),
        forall|i: int|
            1 <= i < layout.subvolume_specs().len() ==> #[trigger] layout.subvolume_specs()[i].1.len()
                > 0,
{
    reveal_strlit("");
    reveal_strlit("home");
    reveal_strlit("var/log");
    reveal_strlit("var/cache");
    reveal_strlit(".snapshots");
}

} // verus!
