//! The volume model for the platform whose volumes are enumerated by a
//! system management query. The enumeration itself is a platform data
//! source outside this crate; the rows it yields are plain values, and
//! building, filtering and reading volumes from them is verified.

use vstd::prelude::*;

use crate::strutil::{spec_strip_prefix_all, spec_strip_suffix_all, str_strip_prefix_all,
    str_strip_suffix_all};

verus! {

/// The drive type a volume row reports, by its numeric code.
#[derive(Clone, Copy, Debug, PartialEq, Eq, Structural)]
pub enum DriveType {
    Unknown,
    NoRootDir,
    RemovableDisk,
    LocalDisk,
    NetworkDrive,
    CompactDisk,
    RamDisk,
}

/// The drive type encoded by a numeric code; codes outside the
/// documented range mean unknown.
pub open spec fn spec_drive_type_of(val: u32) -> DriveType {
    if val == 1 {
        DriveType::NoRootDir
    } else if val == 2 {
        DriveType::RemovableDisk
    } else if val == 3 {
        DriveType::LocalDisk
    } else if val == 4 {
        DriveType::NetworkDrive
    } else if val == 5 {
        DriveType::CompactDisk
    } else if val == 6 {
        DriveType::RamDisk
    } else {
        DriveType::Unknown
    }
}

impl DriveType {
    /// Decodes the numeric drive type of a volume row.
    pub fn from_u32(val: u32) -> (r: DriveType)
        ensures
            r == spec_drive_type_of(val),
    {
        match val {
            1 => DriveType::NoRootDir,
            2 => DriveType::RemovableDisk,
            3 => DriveType::LocalDisk,
            4 => DriveType::NetworkDrive,
            5 => DriveType::CompactDisk,
            6 => DriveType::RamDisk,
            _ => DriveType::Unknown,
        }
    }
}

/// One row of the platform's volume query, as plain values: the
/// properties read from the system, and the device name the platform
/// resolved for the volume's handle.
#[derive(Clone, Debug)]
pub struct VolumeRow {
    pub name: String,
    pub device_id: String,
    pub label: String,
    pub drive_letter: String,
    pub file_system: String,
    pub device: String,
    pub boot_volume: bool,
    pub system_volume: bool,
    pub page_file_present: bool,
    pub block_size: u32,
    pub capacity: u64,
    pub free_space: u64,
    pub max_filename_length: u32,
    pub drive_type: u32,
}

/// A volume built from one query row.
#[derive(Clone, Debug)]
pub struct Volume {
    pub name: String,
    pub device_id: String,
    pub label: String,
    pub drive_letter: String,
    pub file_system: String,
    pub device: String,
    pub boot_volume: bool,
    pub system_volume: bool,
    pub page_file_present: bool,
    pub block_size: u32,
    pub capacity: u64,
    pub free_space: u64,
    pub max_filename_length: u32,
    pub drive_type: DriveType,
}

/// The volume a row denotes: every property carried over, the drive
/// type decoded.
pub open spec fn spec_volume_of(row: VolumeRow) -> Volume {
    Volume {
        name: row.name,
        device_id: row.device_id,
        label: row.label,
        drive_letter: row.drive_letter,
        file_system: row.file_system,
        device: row.device,
        boot_volume: row.boot_volume,
        system_volume: row.system_volume,
        page_file_present: row.page_file_present,
        block_size: row.block_size,
        capacity: row.capacity,
        free_space: row.free_space,
        max_filename_length: row.max_filename_length,
        drive_type: spec_drive_type_of(row.drive_type),
    }
}

/// The volumes of the system rows among `rows`, in order.
pub open spec fn spec_filtered_volumes(rows: Seq<VolumeRow>, system: bool) -> Seq<Volume>
    decreases rows.len(),
{
    if rows.len() == 0 {
        Seq::<Volume>::empty()
    } else {
        let rest = spec_filtered_volumes(rows.drop_last(), system);
        let keep = if system {
            rows.last().system_volume
        } else {
            rows.last().boot_volume
        };
        if keep {
            rest.push(spec_volume_of(rows.last()))
        } else {
            rest
        }
    }
}

/// The device handle inside a volume's device identifier: the
/// identifier stripped of its leading `\\?\` marker and its trailing
/// backslash.
pub open spec fn spec_device_handle(device_id: Seq<char>) -> Seq<char> {
    spec_strip_suffix_all(spec_strip_prefix_all(device_id, "\\\\?\\"@), "\\"@)
}

/// Extracts the device handle from a volume's device identifier; the
/// platform resolves this handle to the volume's device name.
pub fn device_handle(device_id: &str) -> (r: String)
    ensures
        r@ == spec_device_handle(device_id@),
{
    let stripped = str_strip_prefix_all(device_id, "\\\\?\\");
    str_strip_suffix_all(stripped.as_str(), "\\")
}

impl Volume {
    /// A volume from one query row.
    pub fn new(row: VolumeRow) -> (r: Volume)
        ensures
            r == spec_volume_of(row),
    {
        let drive_type = DriveType::from_u32(row.drive_type);
        Volume {
            name: row.name,
            device_id: row.device_id,
            label: row.label,
            drive_letter: row.drive_letter,
            file_system: row.file_system,
            device: row.device,
            boot_volume: row.boot_volume,
            system_volume: row.system_volume,
            page_file_present: row.page_file_present,
            block_size: row.block_size,
            capacity: row.capacity,
            free_space: row.free_space,
            max_filename_length: row.max_filename_length,
            drive_type,
        }
    }

    /// Every volume the query rows denote, in order.
    pub fn query_all(rows: Vec<VolumeRow>) -> (r: Vec<Volume>)
        ensures
            r@.len() == rows@.len(),
            forall|i: int| 0 <= i < rows@.len() ==> r@[i] == spec_volume_of(rows@[i]),
    {
        let mut out: Vec<Volume> = Vec::new();
        let n = rows.len();
        let mut i: usize = 0;
        while i < n
            invariant
                n == rows@.len(),
                0 <= i <= n,
                out@.len() == i,
                forall|k: int| 0 <= k < i ==> out@[k] == spec_volume_of(rows@[k]),
            decreases n - i,
        {
            out.push(Volume::new(rows[i].clone_row()));
            i += 1;
        }
        out
    }

    /// The volumes among the rows that are system volumes, in order.
    pub fn query_system_volumes(rows: Vec<VolumeRow>) -> (r: Vec<Volume>)
        ensures
            r@ == spec_filtered_volumes(rows@, true),
    {
        let n = rows.len();
        let mut out: Vec<Volume> = Vec::new();
        let mut i: usize = 0;
        while i < n
            invariant
                n == rows@.len(),
                0 <= i <= n,
                out@ == spec_filtered_volumes(rows@.subrange(0, i as int), true),
            decreases n - i,
        {
            let row = &rows[i];
            if row.system_volume {
                out.push(Volume::new(row.clone_row()));
            }
            proof {
                let t = rows@.subrange(0, i + 1 as int);
                assert(t.drop_last() =~= rows@.subrange(0, i as int));
                assert(t.last() == rows@[i as int]);
            }
            i += 1;
        }
        proof {
            assert(rows@.subrange(0, n as int) =~= rows@);
        }
        out
    }

    /// The volumes among the rows that are boot volumes, in order.
    pub fn query_boot_volumes(rows: Vec<VolumeRow>) -> (r: Vec<Volume>)
        ensures
            r@ == spec_filtered_volumes(rows@, false),
    {
        let n = rows.len();
        let mut out: Vec<Volume> = Vec::new();
        let mut i: usize = 0;
        while i < n
            invariant
                n == rows@.len(),
                0 <= i <= n,
                out@ == spec_filtered_volumes(rows@.subrange(0, i as int), false),
            decreases n - i,
        {
            let row = &rows[i];
            if row.boot_volume {
                out.push(Volume::new(row.clone_row()));
            }
            proof {
                let t = rows@.subrange(0, i + 1 as int);
                assert(t.drop_last() =~= rows@.subrange(0, i as int));
                assert(t.last() == rows@[i as int]);
            }
            i += 1;
        }
        proof {
            assert(rows@.subrange(0, n as int) =~= rows@);
        }
        out
    }

    /// Whether this is the boot volume.
    pub fn is_boot(&self) -> (r: bool)
        ensures
            r == self.boot_volume,
    {
        self.boot_volume
    }

    /// Whether this is a system volume.
    pub fn is_system(&self) -> (r: bool)
        ensures
            r == self.system_volume,
    {
        self.system_volume
    }

    /// The volume's name.
    pub fn get_name(&self) -> (r: &str)
        ensures
            r@ == self.name@,
    {
        self.name.as_str()
    }

    /// The volume's device identifier.
    pub fn get_device_id(&self) -> (r: &str)
        ensures
            r@ == self.device_id@,
    {
        self.device_id.as_str()
    }

    /// The device name the platform resolved for the volume.
    pub fn get_device(&self) -> (r: &str)
        ensures
            r@ == self.device@,
    {
        self.device.as_str()
    }

    /// The volume's drive letter, empty when it has none.
    pub fn get_drive_letter(&self) -> (r: &str)
        ensures
            r@ == self.drive_letter@,
    {
        self.drive_letter.as_str()
    }
}

impl VolumeRow {
    /// An equal copy, with the equality known to the verifier.
    pub fn clone_row(&self) -> (r: VolumeRow)
        ensures
            r == *self,
    {
        VolumeRow {
            name: self.name.clone(),
            device_id: self.device_id.clone(),
            label: self.label.clone(),
            drive_letter: self.drive_letter.clone(),
            file_system: self.file_system.clone(),
            device: self.device.clone(),
            boot_volume: self.boot_volume,
            system_volume: self.system_volume,
            page_file_present: self.page_file_present,
            block_size: self.block_size,
            capacity: self.capacity,
            free_space: self.free_space,
            max_filename_length: self.max_filename_length,
            drive_type: self.drive_type,
        }
    }
}

} // verus!
