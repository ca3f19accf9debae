//! The guest memory arena and the bridge to its memory-mapped devices.
//!
//! The arena is `DRAM_SIZE` bytes of guest memory. The device blocks are part
//! of its address space: the sensor and the actuator block keep their fields in
//! the arena itself, the log block and the reserved blocks hold nothing.

use vstd::prelude::*;
use crate::controls::{
    clamp_symmetric,
    clamp_unit,
    ActuatorCommand,
    SensorSnapshot,
    ACCELERATOR_OFFSET,
    BRAKE_OFFSET,
    FORWARD_X_OFFSET,
    FORWARD_Y_OFFSET,
    POSITION_X_OFFSET,
    POSITION_Y_OFFSET,
    SPEED_OFFSET,
    STEERING_OFFSET,
};
use crate::endian::{load_le, spec_load_le, spec_store_le, store_le, value_bytes, byte_of};
use crate::fault::Fault;
use crate::layout::{
    device_at,
    in_devices,
    spec_device_at,
    spec_in_devices,
    spec_straddles,
    straddles,
    Device,
    Width,
    DRAM_SIZE,
    SLOT2,
    SLOT3,
};

verus! {

/// The commands that the actuator block of `bytes` holds.
pub open spec fn actuators_of(bytes: Seq<u8>) -> ActuatorCommand {
    ActuatorCommand {
        accelerator: spec_load_le(bytes, SLOT3 + ACCELERATOR_OFFSET, Width::Word),
        brake: spec_load_le(bytes, SLOT3 + BRAKE_OFFSET, Width::Word),
        steering: spec_load_le(bytes, SLOT3 + STEERING_OFFSET, Width::Word),
    }
}

/// `bytes` with the fields of the actuator block replaced by `command`.
pub open spec fn with_actuators(bytes: Seq<u8>, command: ActuatorCommand) -> Seq<u8> {
    spec_store_le(
        spec_store_le(
            spec_store_le(bytes, SLOT3 + ACCELERATOR_OFFSET, Width::Word, command.accelerator),
            SLOT3 + BRAKE_OFFSET,
            Width::Word,
            command.brake,
        ),
        SLOT3 + STEERING_OFFSET,
        Width::Word,
        command.steering,
    )
}

/// The telemetry that the sensor block of `bytes` holds.
pub open spec fn sensors_of(bytes: Seq<u8>) -> SensorSnapshot {
    SensorSnapshot {
        speed: spec_load_le(bytes, SLOT2 + SPEED_OFFSET, Width::Word),
        position_x: spec_load_le(bytes, SLOT2 + POSITION_X_OFFSET, Width::Word),
        position_y: spec_load_le(bytes, SLOT2 + POSITION_Y_OFFSET, Width::Word),
        forward_x: spec_load_le(bytes, SLOT2 + FORWARD_X_OFFSET, Width::Word),
        forward_y: spec_load_le(bytes, SLOT2 + FORWARD_Y_OFFSET, Width::Word),
    }
}

/// `bytes` with the fields of the sensor block replaced by `snapshot`.
pub open spec fn with_sensors(bytes: Seq<u8>, snapshot: SensorSnapshot) -> Seq<u8> {
    spec_store_le(
        spec_store_le(
            spec_store_le(
                spec_store_le(
                    spec_store_le(bytes, SLOT2 + SPEED_OFFSET, Width::Word, snapshot.speed),
                    SLOT2 + POSITION_X_OFFSET,
                    Width::Word,
                    snapshot.position_x,
                ),
                SLOT2 + POSITION_Y_OFFSET,
                Width::Word,
                snapshot.position_y,
            ),
            SLOT2 + FORWARD_X_OFFSET,
            Width::Word,
            snapshot.forward_x,
        ),
        SLOT2 + FORWARD_Y_OFFSET,
        Width::Word,
        snapshot.forward_y,
    )
}

/// What an arena is: its bytes, and the text that the guest has logged.
pub struct DramState {
    /// The bytes of the arena, by guest address.
    pub bytes: Seq<u8>,
    /// Every byte written to the log block so far, oldest first.
    pub log: Seq<u8>,
}

impl DramState {
    /// An arena has its fixed length, and the commands in its actuator block
    /// lie in their ranges.
    pub open spec fn wf(self) -> bool {
        &&& self.bytes.len() == DRAM_SIZE
        &&& actuators_of(self.bytes).in_range()
    }

    /// The arena of all zeros with an empty log.
    pub open spec fn blank() -> DramState {
        DramState { bytes: Seq::new(DRAM_SIZE as nat, |i: int| 0u8), log: Seq::empty() }
    }

    /// What a data read of `width` bytes at `addr` returns.
    ///
    /// The bounds are checked first, then the block boundaries. The log block
    /// and the reserved blocks read as zero; the sensor block, the actuator
    /// block and ordinary memory yield what the arena holds.
    pub open spec fn read(self, addr: u32, width: Width) -> Result<u32, Fault> {
        if addr + width.spec_len() > DRAM_SIZE {
            Err(Fault::OutOfBounds)
        } else if spec_straddles(addr, width.spec_len()) {
            Err(Fault::MisalignedDeviceAccess)
        } else {
            match spec_device_at(addr) {
                Some(Device::Log) | Some(Device::Reserved) => Ok(0),
                _ => Ok(spec_load_le(self.bytes, addr as int, width)),
            }
        }
    }

    /// What a data write of the low `width` bytes of `value` at `addr` leaves
    /// behind, or the fault that it raises.
    ///
    /// The bounds are checked first, then the block boundaries. A write to the
    /// log block appends its bytes to the log; one to the sensor block faults;
    /// one to the actuator block is stored and the commands are clamped to
    /// their ranges; one to a reserved block is dropped; any other is stored
    /// in the arena.
    pub open spec fn write(self, addr: u32, width: Width, value: u32) -> Result<DramState, Fault> {
        if addr + width.spec_len() > DRAM_SIZE {
            Err(Fault::OutOfBounds)
        } else if spec_straddles(addr, width.spec_len()) {
            Err(Fault::MisalignedDeviceAccess)
        } else {
            match spec_device_at(addr) {
                None => Ok(
                    DramState {
                        bytes: spec_store_le(self.bytes, addr as int, width, value),
                        log: self.log,
                    },
                ),
                Some(Device::Log) => Ok(
                    DramState { bytes: self.bytes, log: self.log + value_bytes(value, width) },
                ),
                Some(Device::Sensor) => Err(Fault::ReadOnlyViolation),
                Some(Device::Actuator) => {
                    let stored = spec_store_le(self.bytes, addr as int, width, value);
                    Ok(
                        DramState {
                            bytes: with_actuators(stored, actuators_of(stored).clamped()),
                            log: self.log,
                        },
                    )
                },
                Some(Device::Reserved) => Ok(self),
            }
        }
    }

    /// The instruction word at `pc`, or the fault that fetching it raises: the
    /// program counter must be a multiple of four, inside the arena and
    /// outside the device blocks.
    pub open spec fn fetch(self, pc: u32) -> Result<u32, Fault> {
        if pc % 4 != 0 {
            Err(Fault::MisalignedFetch)
        } else if pc + 4 > DRAM_SIZE {
            Err(Fault::OutOfBounds)
        } else if spec_in_devices(pc) {
            Err(Fault::ExecuteFromDevice)
        } else {
            Ok(spec_load_le(self.bytes, pc as int, Width::Word))
        }
    }

    /// The arena after the host has supplied `snapshot`.
    pub open spec fn supply(self, snapshot: SensorSnapshot) -> DramState {
        DramState { bytes: with_sensors(self.bytes, snapshot), log: self.log }
    }

    /// The commands that the host reads.
    pub open spec fn actuators(self) -> ActuatorCommand {
        actuators_of(self.bytes)
    }

    /// The telemetry that the guest reads.
    pub open spec fn sensors(self) -> SensorSnapshot {
        sensors_of(self.bytes)
    }
}

/// Replacing the commands of the actuator block puts exactly them there, and
/// touches nothing outside the three fields.
pub proof fn lemma_with_actuators(bytes: Seq<u8>, command: ActuatorCommand)
    requires
        bytes.len() == DRAM_SIZE,
    ensures
        with_actuators(bytes, command).len() == DRAM_SIZE,
        actuators_of(with_actuators(bytes, command)) == command,
        forall|i: int|
            0 <= i < DRAM_SIZE && !(SLOT3 <= i < SLOT3 + 12) ==> with_actuators(bytes, command)[i]
                == bytes[i],
{
    let a = spec_store_le(bytes, SLOT3 + ACCELERATOR_OFFSET, Width::Word, command.accelerator);
    let b = spec_store_le(a, SLOT3 + BRAKE_OFFSET, Width::Word, command.brake);
    let c = spec_store_le(b, SLOT3 + STEERING_OFFSET, Width::Word, command.steering);
    crate::endian::lemma_load_after_store(
        bytes,
        SLOT3 + ACCELERATOR_OFFSET,
        Width::Word,
        command.accelerator,
    );
    crate::endian::lemma_load_after_store(a, SLOT3 + BRAKE_OFFSET, Width::Word, command.brake);
    crate::endian::lemma_load_after_store(
        b,
        SLOT3 + STEERING_OFFSET,
        Width::Word,
        command.steering,
    );
    crate::endian::lemma_load_disjoint_store(
        a,
        SLOT3 + BRAKE_OFFSET,
        Width::Word,
        command.brake,
        SLOT3 + ACCELERATOR_OFFSET,
        Width::Word,
    );
    crate::endian::lemma_load_disjoint_store(
        b,
        SLOT3 + STEERING_OFFSET,
        Width::Word,
        command.steering,
        SLOT3 + ACCELERATOR_OFFSET,
        Width::Word,
    );
    crate::endian::lemma_load_disjoint_store(
        b,
        SLOT3 + STEERING_OFFSET,
        Width::Word,
        command.steering,
        SLOT3 + BRAKE_OFFSET,
        Width::Word,
    );
}

/// Replacing the telemetry of the sensor block puts exactly it there, and
/// touches nothing outside the five fields.
pub proof fn lemma_with_sensors(bytes: Seq<u8>, snapshot: SensorSnapshot)
    requires
        bytes.len() == DRAM_SIZE,
    ensures
        with_sensors(bytes, snapshot).len() == DRAM_SIZE,
        sensors_of(with_sensors(bytes, snapshot)) == snapshot,
        forall|i: int|
            0 <= i < DRAM_SIZE && !(SLOT2 <= i < SLOT2 + 20) ==> with_sensors(bytes, snapshot)[i]
                == bytes[i],
{
    let a = spec_store_le(bytes, SLOT2 + SPEED_OFFSET, Width::Word, snapshot.speed);
    let b = spec_store_le(a, SLOT2 + POSITION_X_OFFSET, Width::Word, snapshot.position_x);
    let c = spec_store_le(b, SLOT2 + POSITION_Y_OFFSET, Width::Word, snapshot.position_y);
    let d = spec_store_le(c, SLOT2 + FORWARD_X_OFFSET, Width::Word, snapshot.forward_x);
    let e = spec_store_le(d, SLOT2 + FORWARD_Y_OFFSET, Width::Word, snapshot.forward_y);
    crate::endian::lemma_load_after_store(bytes, SLOT2 + SPEED_OFFSET, Width::Word, snapshot.speed);
    crate::endian::lemma_load_after_store(
        a,
        SLOT2 + POSITION_X_OFFSET,
        Width::Word,
        snapshot.position_x,
    );
    crate::endian::lemma_load_after_store(
        b,
        SLOT2 + POSITION_Y_OFFSET,
        Width::Word,
        snapshot.position_y,
    );
    crate::endian::lemma_load_after_store(
        c,
        SLOT2 + FORWARD_X_OFFSET,
        Width::Word,
        snapshot.forward_x,
    );
    crate::endian::lemma_load_after_store(
        d,
        SLOT2 + FORWARD_Y_OFFSET,
        Width::Word,
        snapshot.forward_y,
    );
    assert(spec_load_le(e, SLOT2 + SPEED_OFFSET, Width::Word) == spec_load_le(
        a,
        SLOT2 + SPEED_OFFSET,
        Width::Word,
    ));
    assert(spec_load_le(e, SLOT2 + POSITION_X_OFFSET, Width::Word) == spec_load_le(
        b,
        SLOT2 + POSITION_X_OFFSET,
        Width::Word,
    ));
    assert(spec_load_le(e, SLOT2 + POSITION_Y_OFFSET, Width::Word) == spec_load_le(
        c,
        SLOT2 + POSITION_Y_OFFSET,
        Width::Word,
    ));
    assert(spec_load_le(e, SLOT2 + FORWARD_X_OFFSET, Width::Word) == spec_load_le(
        d,
        SLOT2 + FORWARD_X_OFFSET,
        Width::Word,
    ));
}

/// A guest memory arena with its device bridge.
pub struct Dram {
    bytes: Vec<u8>,
    log: Vec<u8>,
}

impl View for Dram {
    type V = DramState;

    closed spec fn view(&self) -> DramState {
        DramState { bytes: self.bytes@, log: self.log@ }
    }
}

impl Dram {
    /// An arena of all zeros with an empty log.
    pub fn new() -> (dram: Dram)
        ensures
            dram@ == DramState::blank(),
            dram@.wf(),
    {
        let bytes: Vec<u8> = vec![0u8; DRAM_SIZE as usize];
        let dram = Dram { bytes, log: Vec::new() };
        proof {
            assert(dram@.bytes =~= DramState::blank().bytes);
            assert(dram@.log =~= DramState::blank().log);
        }
        dram
    }

    /// An arena with the given contents and an empty log.
    pub(crate) fn from_bytes(bytes: Vec<u8>) -> (dram: Dram)
        requires
            bytes@.len() == DRAM_SIZE,
            actuators_of(bytes@).in_range(),
        ensures
            dram@ == (DramState { bytes: bytes@, log: Seq::empty() }),
            dram@.wf(),
    {
        let dram = Dram { bytes, log: Vec::new() };
        proof {
            assert(dram@.log =~= Seq::<u8>::empty());
        }
        dram
    }

    /// Reads `width` bytes at `addr` on behalf of the guest.
    pub fn read(&self, addr: u32, width: Width) -> (result: Result<u32, Fault>)
        requires
            self@.wf(),
        ensures
            result == self@.read(addr, width),
    {
        let len: u32 = width.len();
        if addr > DRAM_SIZE - len {
            return Err(Fault::OutOfBounds);
        }
        if straddles(addr, len) {
            return Err(Fault::MisalignedDeviceAccess);
        }
        match device_at(addr) {
            Some(Device::Log) => Ok(0),
            Some(Device::Reserved) => Ok(0),
            _ => Ok(load_le(self.bytes.as_slice(), addr as usize, width)),
        }
    }

    /// Writes the low `width` bytes of `value` at `addr` on behalf of the
    /// guest. A write that faults changes nothing.
    pub fn write(&mut self, addr: u32, width: Width, value: u32) -> (result: Result<(), Fault>)
        requires
            old(self)@.wf(),
        ensures
            final(self)@.wf(),
            match old(self)@.write(addr, width, value) {
                Ok(after) => result is Ok && final(self)@ == after,
                Err(fault) => result == Err::<(), Fault>(fault) && final(self)@ == old(self)@,
            },
    {
        let len: u32 = width.len();
        if addr > DRAM_SIZE - len {
            return Err(Fault::OutOfBounds);
        }
        if straddles(addr, len) {
            return Err(Fault::MisalignedDeviceAccess);
        }
        match device_at(addr) {
            None => {
                store_le(&mut self.bytes, addr as usize, width, value);
                proof {
                    lemma_store_keeps_devices(old(self)@.bytes, addr, width, value);
                }
                Ok(())
            },
            Some(Device::Log) => {
                let count: usize = len as usize;
                let mut i: usize = 0;
                while i < count
                    invariant
                        count == width.spec_len(),
                        i <= count,
                        self.bytes == old(self).bytes,
                        self.log@ == old(self).log@ + value_bytes(value, width).take(i as int),
                    decreases count - i,
                {
                    self.log.push(byte_of(value, i));
                    proof {
                        assert(self.log@ =~= old(self).log@ + value_bytes(value, width).take(
                            i + 1,
                        ));
                    }
                    i += 1;
                }
                proof {
                    assert(value_bytes(value, width).take(count as int) =~= value_bytes(
                        value,
                        width,
                    ));
                }
                Ok(())
            },
            Some(Device::Sensor) => Err(Fault::ReadOnlyViolation),
            Some(Device::Actuator) => {
                store_le(&mut self.bytes, addr as usize, width, value);
                self.clamp_actuators();
                Ok(())
            },
            Some(Device::Reserved) => Ok(()),
        }
    }

    /// The three commands as the actuator block holds them.
    fn stored_actuators(&self) -> (command: ActuatorCommand)
        requires
            self.bytes@.len() == DRAM_SIZE,
        ensures
            command == actuators_of(self.bytes@),
    {
        let bytes: &[u8] = self.bytes.as_slice();
        let base: usize = SLOT3 as usize;
        ActuatorCommand {
            accelerator: load_le(bytes, base + ACCELERATOR_OFFSET as usize, Width::Word),
            brake: load_le(bytes, base + BRAKE_OFFSET as usize, Width::Word),
            steering: load_le(bytes, base + STEERING_OFFSET as usize, Width::Word),
        }
    }

    /// Clamps the three commands of the actuator block to their ranges.
    fn clamp_actuators(&mut self)
        requires
            old(self).bytes@.len() == DRAM_SIZE,
        ensures
            final(self).log == old(self).log,
            final(self).bytes@ == with_actuators(
                old(self).bytes@,
                actuators_of(old(self).bytes@).clamped(),
            ),
            final(self)@.wf(),
    {
        let base: usize = SLOT3 as usize;
        let command: ActuatorCommand = self.stored_actuators();
        let accelerator: u32 = command.accelerator;
        let brake: u32 = command.brake;
        let steering: u32 = command.steering;
        store_le(
            &mut self.bytes,
            base + ACCELERATOR_OFFSET as usize,
            Width::Word,
            clamp_unit(accelerator),
        );
        store_le(&mut self.bytes, base + BRAKE_OFFSET as usize, Width::Word, clamp_unit(brake));
        store_le(
            &mut self.bytes,
            base + STEERING_OFFSET as usize,
            Width::Word,
            clamp_symmetric(steering),
        );
        proof {
            lemma_with_actuators(old(self).bytes@, actuators_of(old(self).bytes@).clamped());
            crate::controls::lemma_clamp(accelerator);
            crate::controls::lemma_clamp(brake);
            crate::controls::lemma_clamp(steering);
        }
    }

    /// Reads the instruction word at `pc`.
    pub fn fetch(&self, pc: u32) -> (result: Result<u32, Fault>)
        requires
            self@.wf(),
        ensures
            result == self@.fetch(pc),
    {
        if pc % 4 != 0 {
            Err(Fault::MisalignedFetch)
        } else if pc > DRAM_SIZE - 4 {
            Err(Fault::OutOfBounds)
        } else if in_devices(pc) {
            Err(Fault::ExecuteFromDevice)
        } else {
            Ok(load_le(self.bytes.as_slice(), pc as usize, Width::Word))
        }
    }

    /// Puts the telemetry of the current tick into the sensor block.
    pub fn write_sensors(&mut self, snapshot: SensorSnapshot)
        requires
            old(self)@.wf(),
        ensures
            final(self)@ == old(self)@.supply(snapshot),
            final(self)@.wf(),
            final(self)@.sensors() == snapshot,
    {
        let base: usize = SLOT2 as usize;
        store_le(&mut self.bytes, base + SPEED_OFFSET as usize, Width::Word, snapshot.speed);
        store_le(
            &mut self.bytes,
            base + POSITION_X_OFFSET as usize,
            Width::Word,
            snapshot.position_x,
        );
        store_le(
            &mut self.bytes,
            base + POSITION_Y_OFFSET as usize,
            Width::Word,
            snapshot.position_y,
        );
        store_le(
            &mut self.bytes,
            base + FORWARD_X_OFFSET as usize,
            Width::Word,
            snapshot.forward_x,
        );
        store_le(
            &mut self.bytes,
            base + FORWARD_Y_OFFSET as usize,
            Width::Word,
            snapshot.forward_y,
        );
        proof {
            lemma_with_sensors(old(self)@.bytes, snapshot);
            lemma_supply_keeps_actuators(old(self)@.bytes, snapshot);
        }
    }

    /// The commands that the guest has pending, each within its range.
    pub fn read_actuators(&self) -> (command: ActuatorCommand)
        requires
            self@.wf(),
        ensures
            command == self@.actuators(),
            command.in_range(),
    {
        self.stored_actuators()
    }

    /// Everything that the guest has logged and the host has not yet taken.
    pub fn read_log(&self) -> (log: &Vec<u8>)
        ensures
            log@ == self@.log,
    {
        &self.log
    }

    /// Hands the logged bytes to the host and empties the log.
    pub fn take_log(&mut self) -> (log: Vec<u8>)
        ensures
            log@ == old(self)@.log,
            final(self)@ == (DramState { bytes: old(self)@.bytes, log: Seq::empty() }),
            old(self)@.wf() ==> final(self)@.wf(),
    {
        let mut log: Vec<u8> = Vec::new();
        core::mem::swap(&mut self.log, &mut log);
        proof {
            assert(self.log@ =~= Seq::<u8>::empty());
        }
        log
    }
}

/// A store that does not go to the actuator block leaves the commands as they
/// were, and one that goes neither there nor to the sensor block leaves the
/// telemetry as it was.
pub proof fn lemma_store_keeps_devices(bytes: Seq<u8>, addr: u32, width: Width, value: u32)
    requires
        bytes.len() == DRAM_SIZE,
        addr + width.spec_len() <= DRAM_SIZE,
        !spec_straddles(addr, width.spec_len()),
        spec_device_at(addr) != Some(Device::Actuator),
    ensures
        actuators_of(spec_store_le(bytes, addr as int, width, value)) == actuators_of(bytes),
        spec_device_at(addr) != Some(Device::Sensor) ==> sensors_of(
            spec_store_le(bytes, addr as int, width, value),
        ) == sensors_of(bytes),
{
}

/// New telemetry leaves the actuator block as it was.
pub proof fn lemma_supply_keeps_actuators(bytes: Seq<u8>, snapshot: SensorSnapshot)
    requires
        bytes.len() == DRAM_SIZE,
    ensures
        actuators_of(with_sensors(bytes, snapshot)) == actuators_of(bytes),
{
    lemma_with_sensors(bytes, snapshot);
}

} // verus!
