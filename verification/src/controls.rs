//! The values that cross the device blocks: telemetry towards the guest and
//! driving commands towards the host.
//!
//! Every field is one little-endian word that holds an IEEE 754 single
//! precision number. The bridge never computes with these numbers; it only
//! orders their bit patterns, which needs integer comparisons alone: among
//! patterns with a clear sign bit, a larger pattern is a larger number.

use vstd::prelude::*;

verus! {

/// The sign bit of a single precision pattern.
pub const SIGN_BIT: u32 = 0x8000_0000;

/// The pattern of the number one.
pub const ONE: u32 = 0x3f80_0000;

/// The pattern of positive infinity. Larger magnitudes are not numbers.
pub const INFINITY: u32 = 0x7f80_0000;

/// Byte offset of the accelerator command in the actuator block.
pub const ACCELERATOR_OFFSET: u32 = 0;

/// Byte offset of the brake command in the actuator block.
pub const BRAKE_OFFSET: u32 = 4;

/// Byte offset of the steering command in the actuator block.
pub const STEERING_OFFSET: u32 = 8;

/// Byte offset of the speed in the sensor block.
pub const SPEED_OFFSET: u32 = 0;

/// Byte offset of the first position coordinate in the sensor block.
pub const POSITION_X_OFFSET: u32 = 4;

/// Byte offset of the second position coordinate in the sensor block.
pub const POSITION_Y_OFFSET: u32 = 8;

/// Byte offset of the first coordinate of the heading in the sensor block.
pub const FORWARD_X_OFFSET: u32 = 12;

/// Byte offset of the second coordinate of the heading in the sensor block.
pub const FORWARD_Y_OFFSET: u32 = 16;

/// The pattern without its sign bit.
pub open spec fn spec_magnitude(bits: u32) -> u32 {
    if bits >= SIGN_BIT {
        (bits - SIGN_BIT) as u32
    } else {
        bits
    }
}

/// The pattern without its sign bit.
#[verifier::when_used_as_spec(spec_magnitude)]
pub fn magnitude(bits: u32) -> (m: u32)
    ensures
        m == spec_magnitude(bits),
{
    if bits >= SIGN_BIT {
        bits - SIGN_BIT
    } else {
        bits
    }
}

/// Whether the pattern encodes no number at all.
pub open spec fn is_nan(bits: u32) -> bool {
    spec_magnitude(bits) > INFINITY
}

/// Whether the pattern encodes a number between zero and one, both included.
/// Negative zero counts as zero.
pub open spec fn in_unit_range(bits: u32) -> bool {
    bits <= ONE || bits == SIGN_BIT
}

/// The nearest pattern between zero and one: numbers below zero become zero,
/// numbers above one become one, and what is not a number becomes zero.
pub open spec fn spec_clamp_unit(bits: u32) -> u32 {
    if in_unit_range(bits) {
        bits
    } else if bits >= SIGN_BIT || is_nan(bits) {
        0
    } else {
        ONE
    }
}

/// The nearest pattern between zero and one.
#[verifier::when_used_as_spec(spec_clamp_unit)]
pub fn clamp_unit(bits: u32) -> (clamped: u32)
    ensures
        clamped == spec_clamp_unit(bits),
{
    if bits <= ONE || bits == SIGN_BIT {
        bits
    } else if bits >= SIGN_BIT || bits > INFINITY {
        0
    } else {
        ONE
    }
}

/// Whether the pattern encodes a number between minus one and one, both
/// included.
pub open spec fn in_symmetric_range(bits: u32) -> bool {
    spec_magnitude(bits) <= ONE
}

/// The nearest pattern between minus one and one: numbers beyond either end
/// become that end, and what is not a number becomes zero.
pub open spec fn spec_clamp_symmetric(bits: u32) -> u32 {
    if in_symmetric_range(bits) {
        bits
    } else if is_nan(bits) {
        0
    } else if bits >= SIGN_BIT {
        (SIGN_BIT + ONE) as u32
    } else {
        ONE
    }
}

/// The nearest pattern between minus one and one.
#[verifier::when_used_as_spec(spec_clamp_symmetric)]
pub fn clamp_symmetric(bits: u32) -> (clamped: u32)
    ensures
        clamped == spec_clamp_symmetric(bits),
{
    let m: u32 = magnitude(bits);
    if m <= ONE {
        bits
    } else if m > INFINITY {
        0
    } else if bits >= SIGN_BIT {
        SIGN_BIT + ONE
    } else {
        ONE
    }
}

/// Clamping lands in the range, and leaves what is in the range alone.
pub proof fn lemma_clamp(bits: u32)
    ensures
        in_unit_range(spec_clamp_unit(bits)),
        in_unit_range(bits) ==> spec_clamp_unit(bits) == bits,
        in_symmetric_range(spec_clamp_symmetric(bits)),
        in_symmetric_range(bits) ==> spec_clamp_symmetric(bits) == bits,
{
}

/// The telemetry of one vehicle, as the host supplies it each tick.
#[derive(Clone, Copy, Debug, PartialEq, Eq, Structural)]
pub struct SensorSnapshot {
    /// Speed along the heading.
    pub speed: u32,
    /// First coordinate of the position.
    pub position_x: u32,
    /// Second coordinate of the position.
    pub position_y: u32,
    /// First coordinate of the heading.
    pub forward_x: u32,
    /// Second coordinate of the heading.
    pub forward_y: u32,
}

/// The driving commands of one guest, as the host reads them each tick.
#[derive(Clone, Copy, Debug, PartialEq, Eq, Structural)]
pub struct ActuatorCommand {
    /// Accelerator, between zero and one.
    pub accelerator: u32,
    /// Brake, between zero and one.
    pub brake: u32,
    /// Steering, between minus one and one.
    pub steering: u32,
}

impl ActuatorCommand {
    /// Whether every command lies in its documented range.
    pub open spec fn in_range(self) -> bool {
        &&& in_unit_range(self.accelerator)
        &&& in_unit_range(self.brake)
        &&& in_symmetric_range(self.steering)
    }

    /// The command with every field clamped to its range.
    pub open spec fn clamped(self) -> ActuatorCommand {
        ActuatorCommand {
            accelerator: spec_clamp_unit(self.accelerator),
            brake: spec_clamp_unit(self.brake),
            steering: spec_clamp_symmetric(self.steering),
        }
    }
}

} // verus!
