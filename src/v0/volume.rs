//! Volumes of a state, and their progress in each location.

use vstd::prelude::*;

use crate::text::{align_right, decimal, pad_right_align, str_eq, to_decimal};
use crate::v0::state::StateLocationStatus;

verus! {

pub struct Volume {
    /// The record's UUID, as its 128-bit value.
    pub id: u128,
    pub name: VolumeName,
    pub size_gi: u64,
    pub fs_type: String,
    pub active_location: Option<String>,
    pub locations: Vec<VolumeLocation>,
    /// When the volume was formatted, in seconds since the Unix epoch.
    pub format: Option<i64>,
    /// Seconds since the Unix epoch.
    pub created: i64,
    /// Seconds since the Unix epoch.
    pub modified: i64,
}

#[derive(Clone, Copy, Debug, PartialEq, Eq, Hash, Structural)]
pub enum VolumeBindingMode {
    WaitForFirstConsumer,
    Immediate,
}

/// The name of a volume within its state.
pub struct VolumeName(pub String);

impl VolumeName {
    pub fn from(text: &str) -> (r: VolumeName)
        ensures
            r.0@ == text@,
    {
        VolumeName(String::from_str(text))
    }

    pub fn as_str(&self) -> (r: &str)
        ensures
            r@ == self.0@,
    {
        self.0.as_str()
    }
}

/// A volume as one location of its state holds it.
pub struct VolumeLocation {
    pub status: LocationVolumeStatus,
    pub progress: Option<StateLocationVolumeProgress>,
    pub name: String,
}

/// How far a location has synchronized a volume.
pub struct StateLocationVolumeProgress {
    pub bytes_synchronized: u64,
    pub bytes_total: u64,
}

pub struct LocationVolumeStatus {
    pub value: StateLocationStatus,
    pub msg: Option<String>,
}

/// The body of a volume creation.
pub struct CreateVolumeDto {
    pub name: String,
    pub size_gi: u64,
    pub fs_type: String,
}

#[derive(Clone, Copy, Debug, PartialEq, Eq, Hash, Structural)]
pub enum VolumeFileSystem {
    Ext,
    Ext2,
    Ext3,
    Ext4,
    Jfs,
    Swap,
    Fat,
    Fat32,
}

#[derive(Clone, Copy, Debug, PartialEq, Eq, Hash, Structural)]
pub enum VolumeStatus {
    Ready,
    Degraded,
    Error,
    Syncing,
    Pending,
}

/// A file system name that no supported file system has.
pub struct InvalidVolumeFileSystem {
    pub file_system: String,
}

impl InvalidVolumeFileSystem {
    pub fn new(fs: &str) -> (r: InvalidVolumeFileSystem)
        ensures
            r.file_system@ == fs@,
    {
        InvalidVolumeFileSystem { file_system: String::from_str(fs) }
    }

    pub open spec fn spec_message(&self) -> Seq<char> {
        "Invalid file system type \""@ + self.file_system@
    }

    /// `Invalid file system type "<name>`.
    pub fn message(&self) -> (r: String)
        ensures
            r@ == self.spec_message(),
    {
        let mut r = String::from_str("Invalid file system type \"");
        r.append(self.file_system.as_str());
        r
    }
}

impl VolumeFileSystem {
    pub open spec fn spec_as_str(self) -> Seq<char> {
        match self {
            VolumeFileSystem::Ext => "ext"@,
            VolumeFileSystem::Ext2 => "ext2"@,
            VolumeFileSystem::Ext3 => "ext3"@,
            VolumeFileSystem::Ext4 => "ext4"@,
            VolumeFileSystem::Jfs => "jfs"@,
            VolumeFileSystem::Swap => "swap"@,
            VolumeFileSystem::Fat => "fat"@,
            VolumeFileSystem::Fat32 => "fat32"@,
        }
    }

    pub open spec fn spec_parse(s: Seq<char>) -> Option<VolumeFileSystem> {
        if s == "ext"@ {
            Some(VolumeFileSystem::Ext)
        } else if s == "ext2"@ {
            Some(VolumeFileSystem::Ext2)
        } else if s == "ext3"@ {
            Some(VolumeFileSystem::Ext3)
        } else if s == "ext4"@ {
            Some(VolumeFileSystem::Ext4)
        } else if s == "jfs"@ {
            Some(VolumeFileSystem::Jfs)
        } else if s == "swap"@ {
            Some(VolumeFileSystem::Swap)
        } else if s == "fat"@ {
            Some(VolumeFileSystem::Fat)
        } else if s == "fat32"@ {
            Some(VolumeFileSystem::Fat32)
        } else {
            None
        }
    }

    pub fn as_str(&self) -> (r: &'static str)
        ensures
            r@ == self.spec_as_str(),
    {
        match self {
            VolumeFileSystem::Ext => "ext",
            VolumeFileSystem::Ext2 => "ext2",
            VolumeFileSystem::Ext3 => "ext3",
            VolumeFileSystem::Ext4 => "ext4",
            VolumeFileSystem::Jfs => "jfs",
            VolumeFileSystem::Swap => "swap",
            VolumeFileSystem::Fat => "fat",
            VolumeFileSystem::Fat32 => "fat32",
        }
    }

    pub fn from_str(fs: &str) -> (r: Result<VolumeFileSystem, InvalidVolumeFileSystem>)
        ensures
            match r {
                Ok(v) => VolumeFileSystem::spec_parse(fs@) == Some(v),
                Err(e) => VolumeFileSystem::spec_parse(fs@) is None && e.file_system@ == fs@,
            },
    {
        if str_eq(fs, "ext") {
            Ok(VolumeFileSystem::Ext)
        } else if str_eq(fs, "ext2") {
            Ok(VolumeFileSystem::Ext2)
        } else if str_eq(fs, "ext3") {
            Ok(VolumeFileSystem::Ext3)
        } else if str_eq(fs, "ext4") {
            Ok(VolumeFileSystem::Ext4)
        } else if str_eq(fs, "jfs") {
            Ok(VolumeFileSystem::Jfs)
        } else if str_eq(fs, "swap") {
            Ok(VolumeFileSystem::Swap)
        } else if str_eq(fs, "fat") {
            Ok(VolumeFileSystem::Fat)
        } else if str_eq(fs, "fat32") {
            Ok(VolumeFileSystem::Fat32)
        } else {
            Err(InvalidVolumeFileSystem::new(fs))
        }
    }
}

impl VolumeStatus {
    pub open spec fn spec_as_str(self) -> Seq<char> {
        match self {
            VolumeStatus::Ready => "ok"@,
            VolumeStatus::Degraded => "degraded"@,
            VolumeStatus::Error => "error"@,
            VolumeStatus::Syncing => "syncing"@,
            VolumeStatus::Pending => "pending"@,
        }
    }

    pub open spec fn spec_parse(s: Seq<char>) -> Option<VolumeStatus> {
        if s == "ok"@ {
            Some(VolumeStatus::Ready)
        } else if s == "degraded"@ {
            Some(VolumeStatus::Degraded)
        } else if s == "error"@ {
            Some(VolumeStatus::Error)
        } else if s == "syncing"@ {
            Some(VolumeStatus::Syncing)
        } else if s == "pending"@ {
            Some(VolumeStatus::Pending)
        } else {
            None
        }
    }

    pub fn as_str(&self) -> (r: &'static str)
        ensures
            r@ == self.spec_as_str(),
    {
        match self {
            VolumeStatus::Ready => "ok",
            VolumeStatus::Degraded => "degraded",
            VolumeStatus::Error => "error",
            VolumeStatus::Syncing => "syncing",
            VolumeStatus::Pending => "pending",
        }
    }

    /// Parses a status; `None` when no status has that name.
    pub fn from_str(s: &str) -> (r: Option<VolumeStatus>)
        ensures
            r == VolumeStatus::spec_parse(s@),
    {
        if str_eq(s, "ok") {
            Some(VolumeStatus::Ready)
        } else if str_eq(s, "degraded") {
            Some(VolumeStatus::Degraded)
        } else if str_eq(s, "error") {
            Some(VolumeStatus::Error)
        } else if str_eq(s, "syncing") {
            Some(VolumeStatus::Syncing)
        } else if str_eq(s, "pending") {
            Some(VolumeStatus::Pending)
        } else {
            None
        }
    }
}

impl Default for VolumeBindingMode {
    fn default() -> (r: VolumeBindingMode)
        ensures
            r == VolumeBindingMode::WaitForFirstConsumer,
    {
        VolumeBindingMode::WaitForFirstConsumer
    }
}

impl LocationVolumeStatus {
    pub open spec fn spec_show(&self, emoji: bool) -> Seq<char> {
        self.value.spec_show(emoji) + match self.msg {
            Some(m) => " "@ + m@,
            None => Seq::empty(),
        }
    }

    /// The status symbol, followed by the message if there is one.
    pub fn show(&self, emoji: bool) -> (r: String)
        ensures
            r@ == self.spec_show(emoji),
    {
        let mut r = self.value.show(emoji);
        match &self.msg {
            Some(m) => {
                r.append(" ");
                r.append(m.as_str());
            },
            None => {
                assert(r@ + Seq::<char>::empty() =~= r@);
            },
        }
        r
    }

    pub fn is_deleting(&self) -> (r: bool)
        ensures
            r == (self.value is Deleting),
    {
        self.value.is_deleting()
    }
}

impl StateLocationVolumeProgress {
    /// The percentage synchronized, rounded down.
    pub open spec fn spec_percent(&self) -> nat
        recommends
            self.bytes_total > 0,
    {
        (100 * (self.bytes_synchronized as int) / (self.bytes_total as int)) as nat
    }

    /// The percentage synchronized, such as `42%`.
    pub fn show(&self) -> (r: String)
        requires
            self.bytes_total > 0,
            100 * self.bytes_synchronized <= u64::MAX,
        ensures
            r@ == decimal(self.spec_percent()) + "%"@,
    {
        let percent = 100 * self.bytes_synchronized / self.bytes_total;
        let mut r = to_decimal(percent);
        r.append("%");
        r
    }
}

impl Volume {
    /// Some location is deleting the volume.
    pub open spec fn spec_is_deleting(&self) -> bool {
        exists|i: int| 0 <= i < self.locations@.len() && (#[trigger] self.locations@[i]).status.value is Deleting
    }

    pub fn is_deleting(&self) -> (r: bool)
        ensures
            r == self.spec_is_deleting(),
    {
        let mut i: usize = 0;
        while i < self.locations.len()
            invariant
                i <= self.locations@.len(),
                forall|k: int| 0 <= k < i ==> !((#[trigger] self.locations@[k]).status.value is Deleting),
            decreases self.locations@.len() - i,
        {
            if self.locations[i].status.is_deleting() {
                return true;
            }
            i = i + 1;
        }
        false
    }

    /// The status and progress of the first location that reports progress.
    pub fn progress(&self) -> (r: Option<(&LocationVolumeStatus, &StateLocationVolumeProgress)>)
        ensures
            match r {
                Some((status, progress)) => exists|i: int|
                    0 <= i < self.locations@.len() && (forall|k: int|
                        0 <= k < i ==> (#[trigger] self.locations@[k]).progress is None)
                        && self.locations@[i].progress == Some(*progress)
                        && self.locations@[i].status == *status,
                None => forall|k: int|
                    0 <= k < self.locations@.len() ==> (#[trigger] self.locations@[k]).progress is None,
            },
    {
        let mut i: usize = 0;
        while i < self.locations.len()
            invariant
                i <= self.locations@.len(),
                forall|k: int| 0 <= k < i ==> (#[trigger] self.locations@[k]).progress is None,
            decreases self.locations@.len() - i,
        {
            let location = &self.locations[i];
            match &location.progress {
                Some(progress) => {
                    return Some((&location.status, progress));
                },
                None => {},
            }
            i = i + 1;
        }
        None
    }
}

/// A volume's name, size and file system, one per line, aligned.
pub open spec fn spec_volume(v: Volume) -> Seq<char> {
    "Volume  :"@ + align_right(v.name.0@, 60) + "\n"@ + "Size    :"@ + align_right(
        decimal(v.size_gi as nat),
        56,
    ) + " GiB\n"@ + "FS Type :"@ + align_right(v.fs_type@, 60) + "\n"@
}

/// A volume's details, as `show-volume` prints them.
pub fn volume(v: &Volume) -> (r: String)
    ensures
        r@ == spec_volume(*v),
{
    let mut out = String::from_str("Volume  :");
    out.append(pad_right_align(v.name.as_str(), 60).as_str());
    out.append("\n");
    out.append("Size    :");
    out.append(pad_right_align(to_decimal(v.size_gi).as_str(), 56).as_str());
    out.append(" GiB\n");
    out.append("FS Type :");
    out.append(pad_right_align(v.fs_type.as_str(), 60).as_str());
    out.append("\n");
    out
}

} // verus!
