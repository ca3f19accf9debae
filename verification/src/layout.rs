//! The guest address space: arena size and the memory-mapped device blocks.

use vstd::prelude::*;

verus! {

/// Size of a guest arena in bytes. Guest addresses run from 0 to `DRAM_SIZE - 1`.
pub const DRAM_SIZE: u32 = 1024 * 64;

/// Size of one device block in bytes.
pub const SLOT_SIZE: u32 = 0x100;

/// Base address of the log block.
pub const SLOT1: u32 = 0x100;

/// Base address of the sensor block.
pub const SLOT2: u32 = 0x200;

/// Base address of the actuator block.
pub const SLOT3: u32 = 0x300;

/// Base address of the first reserved block.
pub const SLOT4: u32 = 0x400;

/// Base address of the second reserved block.
pub const SLOT5: u32 = 0x500;

/// Base address of the third reserved block.
pub const SLOT6: u32 = 0x600;

/// First address after the device blocks.
pub const DEVICE_END: u32 = 0x700;

/// The device behind a block of the address space.
#[derive(Clone, Copy, Debug, PartialEq, Eq, Structural)]
pub enum Device {
    /// Write-only text channel towards the host.
    Log,
    /// Read-only vehicle telemetry supplied by the host.
    Sensor,
    /// Driving commands of the guest, readable back by the guest.
    Actuator,
    /// Unused block: reads as zero, ignores writes.
    Reserved,
}

/// The width of a data access.
#[derive(Clone, Copy, Debug, PartialEq, Eq, Structural)]
pub enum Width {
    /// One byte.
    Byte,
    /// Two bytes.
    Half,
    /// Four bytes.
    Word,
}

impl Width {
    /// Number of bytes that an access of this width covers.
    pub open spec fn spec_len(self) -> u32 {
        match self {
            Width::Byte => 1,
            Width::Half => 2,
            Width::Word => 4,
        }
    }

    /// Number of bytes that an access of this width covers.
    #[verifier::when_used_as_spec(spec_len)]
    pub fn len(self) -> (n: u32)
        ensures
            n == self.spec_len(),
    {
        match self {
            Width::Byte => 1,
            Width::Half => 2,
            Width::Word => 4,
        }
    }
}

/// Whether `addr` lies in one of the device blocks.
pub open spec fn spec_in_devices(addr: u32) -> bool {
    SLOT1 <= addr < DEVICE_END
}

/// Whether `addr` lies in one of the device blocks.
#[verifier::when_used_as_spec(spec_in_devices)]
pub fn in_devices(addr: u32) -> (b: bool)
    ensures
        b == spec_in_devices(addr),
{
    SLOT1 <= addr && addr < DEVICE_END
}

/// The device whose block holds `addr`, or `None` for ordinary memory.
pub open spec fn spec_device_at(addr: u32) -> Option<Device> {
    if addr < SLOT1 {
        None
    } else if addr < SLOT2 {
        Some(Device::Log)
    } else if addr < SLOT3 {
        Some(Device::Sensor)
    } else if addr < SLOT4 {
        Some(Device::Actuator)
    } else if addr < DEVICE_END {
        Some(Device::Reserved)
    } else {
        None
    }
}

/// The device whose block holds `addr`, or `None` for ordinary memory.
#[verifier::when_used_as_spec(spec_device_at)]
pub fn device_at(addr: u32) -> (d: Option<Device>)
    ensures
        d == spec_device_at(addr),
{
    if addr < SLOT1 {
        None
    } else if addr < SLOT2 {
        Some(Device::Log)
    } else if addr < SLOT3 {
        Some(Device::Sensor)
    } else if addr < SLOT4 {
        Some(Device::Actuator)
    } else if addr < DEVICE_END {
        Some(Device::Reserved)
    } else {
        None
    }
}

/// Whether the `len` bytes from `addr` on cross the boundary of a device
/// block: the first and the last byte lie in different blocks of `SLOT_SIZE`
/// bytes, and at least one of the two blocks belongs to a device.
pub open spec fn spec_straddles(addr: u32, len: u32) -> bool
    recommends
        1 <= len,
        addr + len <= u32::MAX,
{
    let last = (addr + len - 1) as u32;
    addr / SLOT_SIZE != last / SLOT_SIZE && (spec_in_devices(addr) || spec_in_devices(last))
}

/// Whether the `len` bytes from `addr` on cross the boundary of a device block.
#[verifier::when_used_as_spec(spec_straddles)]
pub fn straddles(addr: u32, len: u32) -> (b: bool)
    requires
        1 <= len,
        addr + len <= u32::MAX,
    ensures
        b == spec_straddles(addr, len),
{
    let last: u32 = addr + len - 1;
    addr / SLOT_SIZE != last / SLOT_SIZE && (in_devices(addr) || in_devices(last))
}

} // verus!
