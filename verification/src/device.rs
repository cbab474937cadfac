//! Reading the replies of the storage driver and building the commands sent to it.
use vstd::prelude::*;

use crate::text::{decimal, decimal_spec, digits_value, join2, law_decimal_reads_back};

verus! {

/// The storage bus type code of a USB-attached disk.
pub const BUS_TYPE_USB: i32 = 7;

/// Where the bus type code stands in a storage device descriptor: after the
/// version, size, four one-byte fields and four 32-bit offsets.
pub const BUS_TYPE_OFFSET: usize = 28;

/// The device path of physical drive `index`: `\\.\PhysicalDrive<index>`.
pub open spec fn device_path_spec(index: u32) -> Seq<char> {
    "\\\\.\\PhysicalDrive"@ + decimal_spec(index as nat)
}

/// Different disks are opened under different paths, and every path names
/// its disk: the text after the fixed prefix reads back as the disk number.
pub proof fn law_device_paths_distinct(i: u32, j: u32)
    ensures
        digits_value(device_path_spec(i).skip("\\\\.\\PhysicalDrive"@.len() as int)) == i,
        device_path_spec(i) == device_path_spec(j) ==> i == j,
{
    let p = "\\\\.\\PhysicalDrive"@;
    law_decimal_reads_back(i as nat);
    law_decimal_reads_back(j as nat);
    assert(device_path_spec(i).skip(p.len() as int) =~= decimal_spec(i as nat));
    assert(device_path_spec(j).skip(p.len() as int) =~= decimal_spec(j as nat));
}

/// The device path under which physical drive `index` is opened.
pub fn device_path(index: u32) -> (p: String)
    ensures
        p@ == device_path_spec(index),
{
    join2("\\\\.\\PhysicalDrive", decimal(index).as_str())
}

/// An ATA command sent through ATA pass-through, with no data transfer.
#[derive(Clone, Copy, Debug)]
pub struct AtaCommand {
    /// The task-file registers, in order: features, sector count, LBA low,
    /// LBA mid, LBA high, device/head, command, reserved.
    pub task_file: [u8; 8],
    /// How long the drive may take, in seconds.
    pub timeout_seconds: u32,
}

/// The SET FEATURES command (0xEF) with subcommand 0x85 (disable APM) and a
/// sector count of 0, to complete within 3 seconds.
pub open spec fn apm_disable_task_file() -> Seq<u8> {
    seq![0x85u8, 0x00u8, 0u8, 0u8, 0u8, 0u8, 0xEFu8, 0u8]
}

/// The command that disables APM on a drive.
pub fn apm_disable_command() -> (c: AtaCommand)
    ensures
        c.task_file@ == apm_disable_task_file(),
        c.task_file@ == seq![0x85u8, 0u8, 0u8, 0u8, 0u8, 0u8, 0xEFu8, 0u8],
        c.timeout_seconds == 3,
{
    let c = AtaCommand { task_file: [0x85, 0x00, 0, 0, 0, 0, 0xEF, 0], timeout_seconds: 3 };
    assert(c.task_file@ =~= apm_disable_task_file());
    c
}

/// The unsigned little-endian value of the four bytes of `b` starting at `at`.
pub open spec fn le_u32_at(b: Seq<u8>, at: int) -> int {
    b[at] + 256 * b[at + 1] + 65536 * b[at + 2] + 16777216 * b[at + 3]
}

/// A 32-bit pattern read as a two's-complement signed number.
pub open spec fn as_signed_32(u: int) -> int {
    if u < 0x8000_0000 {
        u
    } else {
        u - 0x1_0000_0000
    }
}

/// The bus type code in a storage device descriptor: the signed
/// little-endian 32-bit number at [`BUS_TYPE_OFFSET`].
pub open spec fn descriptor_bus_type(desc: Seq<u8>) -> int {
    as_signed_32(le_u32_at(desc, BUS_TYPE_OFFSET as int))
}

/// The bus type code is read back exactly as the driver writes it: a
/// descriptor holding the little-endian bytes of any code at
/// [`BUS_TYPE_OFFSET`] has that code, whatever its other bytes are.
pub proof fn law_bus_type_reads_back(desc: Seq<u8>, code: i32)
    requires
        desc.len() >= BUS_TYPE_OFFSET + 4,
        desc[BUS_TYPE_OFFSET as int] == (code as u32 & 0xff) as u8,
        desc[BUS_TYPE_OFFSET + 1] == ((code as u32 >> 8u32) & 0xff) as u8,
        desc[BUS_TYPE_OFFSET + 2] == ((code as u32 >> 16u32) & 0xff) as u8,
        desc[BUS_TYPE_OFFSET + 3] == ((code as u32 >> 24u32) & 0xff) as u8,
    ensures
        descriptor_bus_type(desc) == code,
        BUS_TYPE_OFFSET == 28,
{
    let u = code as u32;
    let b0 = desc[BUS_TYPE_OFFSET as int];
    let b1 = desc[BUS_TYPE_OFFSET + 1];
    let b2 = desc[BUS_TYPE_OFFSET + 2];
    let b3 = desc[BUS_TYPE_OFFSET + 3];
    assert(b0 as int + 256 * b1 + 65536 * b2 + 16777216 * b3 == u as int) by (bit_vector)
        requires
            b0 == (u & 0xff) as u8,
            b1 == ((u >> 8u32) & 0xff) as u8,
            b2 == ((u >> 16u32) & 0xff) as u8,
            b3 == ((u >> 24u32) & 0xff) as u8,
    ;
    assert(if (u as int) < 0x8000_0000 { u as int == code as int } else { u as int - 0x1_0000_0000 == code as int })
        by (bit_vector)
        requires
            u == code as u32,
    ;
}

/// Reads the bus type code out of the bytes of a storage device descriptor.
pub fn bus_type_from_descriptor(desc: &[u8]) -> (code: i32)
    requires
        desc@.len() >= BUS_TYPE_OFFSET + 4,
    ensures
        code as int == descriptor_bus_type(desc@),
{
    let b0 = desc[BUS_TYPE_OFFSET] as u32;
    let b1 = desc[BUS_TYPE_OFFSET + 1] as u32;
    let b2 = desc[BUS_TYPE_OFFSET + 2] as u32;
    let b3 = desc[BUS_TYPE_OFFSET + 3] as u32;
    let u: u32 = b0 + b1 * 256 + b2 * 65536 + b3 * 16777216;
    if u < 0x8000_0000 {
        u as i32
    } else {
        ((u - 0x8000_0000) as i32) + i32::MIN
    }
}

/// Whether a bus type code is that of a USB-attached disk.
pub fn is_usb_bus(code: i32) -> (b: bool)
    ensures
        b == (code == BUS_TYPE_USB),
        b == (code == 7),
{
    code == BUS_TYPE_USB
}

/// Whether a disk is an SSD, from its seek-penalty reply: a reply of the
/// wrong size is no answer (`None`); otherwise a disk that incurs no seek
/// penalty is taken to be an SSD.
pub fn ssd_from_seek_penalty(bytes_returned: u32, descriptor_size: u32, incurs_seek_penalty: bool) -> (r: Option<bool>)
    ensures
        bytes_returned != descriptor_size ==> r is None,
        bytes_returned == descriptor_size ==> r == Some(!incurs_seek_penalty),
{
    if bytes_returned != descriptor_size {
        None
    } else {
        Some(!incurs_seek_penalty)
    }
}

/// What to do after asking for one more disk interface.
#[derive(PartialEq, Eq, Structural, Clone, Copy, Debug)]
pub enum EnumerationStep {
    /// Ask for the interface with this index; as many disks are counted.
    Continue(u32),
    /// The enumeration is over with this many disks.
    Stop(u32),
}

/// Counting disks by enumerating their interfaces: with `count` interfaces
/// found so far, an interface found counts one more disk and the next one is
/// asked for; any failure (whether the list is exhausted or not) ends the
/// count.
pub fn interface_enumeration_step(count: u32, found: bool) -> (next: EnumerationStep)
    requires
        found ==> count < u32::MAX,
    ensures
        found ==> next == EnumerationStep::Continue((count + 1) as u32),
        !found ==> next == EnumerationStep::Stop(count),
{
    if found {
        EnumerationStep::Continue(count + 1)
    } else {
        EnumerationStep::Stop(count)
    }
}

} // verus!
