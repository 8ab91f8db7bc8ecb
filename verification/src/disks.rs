//! Per-disk capacity figures.
//!
//! The host's drive enumeration and capacity queries live outside this
//! crate; what lives here is the arithmetic and classification applied to
//! their answers: mapping the provider's numeric drive-type code onto
//! [`DriveType`], deriving the gigabyte figures from byte counts, and
//! selecting which drive types the report covers.

use vstd::prelude::*;

verus! {

/// Bytes per gigabyte (a binary gigabyte, `1024 * 1024 * 1024`).
pub const BYTES_PER_GIGABYTE: u64 = 1_073_741_824;

/// The categories the host assigns to a logical drive.
#[derive(Clone, Copy, Debug, PartialEq, Eq, Structural)]
pub enum DriveType {
    DriveUnknown,
    DriveNoRootDir,
    DriveRemovable,
    DriveFixed,
    DriveRemote,
    DriveCdrom,
    DriveRamdisk,
}

impl Default for DriveType {
    /// An unclassified drive.
    fn default() -> (r: DriveType)
        ensures
            r == DriveType::DriveUnknown,
    {
        DriveType::DriveUnknown
    }
}

impl DriveType {
    /// The drive type a numeric provider code stands for; codes outside the
    /// documented range fall back to the unknown type.
    pub open spec fn of_code(dt: u32) -> DriveType {
        match dt {
            0u32 => DriveType::DriveUnknown,
            1u32 => DriveType::DriveNoRootDir,
            2u32 => DriveType::DriveRemovable,
            3u32 => DriveType::DriveFixed,
            4u32 => DriveType::DriveRemote,
            5u32 => DriveType::DriveCdrom,
            6u32 => DriveType::DriveRamdisk,
            _ => DriveType::DriveUnknown,
        }
    }

    /// Classify a numeric drive-type code.
    pub fn get(dt: u32) -> (r: DriveType)
        ensures
            r == DriveType::of_code(dt),
    {
        match dt {
            0 => DriveType::DriveUnknown,
            1 => DriveType::DriveNoRootDir,
            2 => DriveType::DriveRemovable,
            3 => DriveType::DriveFixed,
            4 => DriveType::DriveRemote,
            5 => DriveType::DriveCdrom,
            6 => DriveType::DriveRamdisk,
            _ => DriveType::DriveUnknown,
        }
    }
}

/// Whether a numeric drive-type code denotes a drive the report covers:
/// removable and fixed drives only.
pub fn is_reported_drive(code: u32) -> (r: bool)
    ensures
        r == (code == 2 || code == 3),
{
    code == 2 || code == 3
}

/// Convert a byte count to whole (binary) gigabytes, rounding down.
pub fn to_gigabytes(bytes: u64) -> (r: u64)
    ensures
        r == bytes / BYTES_PER_GIGABYTE,
{
    bytes / BYTES_PER_GIGABYTE
}

/// The ASCII code of the uppercase letter of the n-th logical drive,
/// counting from one: drive one is `A`.
pub fn drive_letter(index: u32) -> (r: u8)
    requires
        1 <= index <= 26,
    ensures
        r == 64 + index,
{
    64 + (index as u8)
}

/// Capacity figures of one logical drive.
#[derive(Clone, Debug, PartialEq, Eq)]
pub struct Disks {
    /// The drive's mount point, e.g. `A:\`.
    pub drive: String,
    pub drive_type: DriveType,
    pub total_bytes: u64,
    pub total_gigabytes: u64,
    pub available_bytes: u64,
    pub available_gigabytes: u64,
}

impl Default for Disks {
    /// An empty record: no mount point, unknown type, zero capacity.
    fn default() -> (r: Disks)
        ensures
            r.drive@ == Seq::<char>::empty(),
            r.drive_type == DriveType::DriveUnknown,
            r.total_bytes == 0,
            r.total_gigabytes == 0,
            r.available_bytes == 0,
            r.available_gigabytes == 0,
    {
        Disks {
            drive: String::new(),
            drive_type: DriveType::DriveUnknown,
            total_bytes: 0,
            total_gigabytes: 0,
            available_bytes: 0,
            available_gigabytes: 0,
        }
    }
}

impl Disks {
    pub fn new() -> (r: Disks)
        ensures
            r.drive@ == Seq::<char>::empty(),
            r.drive_type == DriveType::DriveUnknown,
            r.total_bytes == 0,
            r.total_gigabytes == 0,
            r.available_bytes == 0,
            r.available_gigabytes == 0,
    {
        Disks::default()
    }

    /// Assemble one drive's record from the measurements the host reported:
    /// the mount point, the numeric drive-type code, and the total and
    /// available byte counts.  The gigabyte figures are derived here.
    pub fn from_measurements(drive: String, type_code: u32, total_bytes: u64, available_bytes: u64) -> (r:
        Disks)
        ensures
            r.drive@ == drive@,
            r.drive_type == DriveType::of_code(type_code),
            r.total_bytes == total_bytes,
            r.total_gigabytes == total_bytes / BYTES_PER_GIGABYTE,
            r.available_bytes == available_bytes,
            r.available_gigabytes == available_bytes / BYTES_PER_GIGABYTE,
    {
        let total_gigabytes = to_gigabytes(total_bytes);
        let available_gigabytes = to_gigabytes(available_bytes);
        Disks {
            drive,
            drive_type: DriveType::get(type_code),
            total_bytes,
            total_gigabytes,
            available_bytes,
            available_gigabytes,
        }
    }
}

} // verus!
