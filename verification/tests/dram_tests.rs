use botracers::controls::{ActuatorCommand, SensorSnapshot};
use botracers::dram::Dram;
use botracers::fault::Fault;
use botracers::layout::{
    device_at, in_devices, straddles, Device, Width, DEVICE_END, DRAM_SIZE, SLOT1, SLOT2, SLOT3,
    SLOT4, SLOT5, SLOT6,
};

fn bits(value: f32) -> u32 {
    value.to_bits()
}

#[test]
fn blank_arena_reads_zero_everywhere() {
    let dram = Dram::new();
    assert_eq!(dram.read(0, Width::Word), Ok(0));
    assert_eq!(dram.read(DRAM_SIZE - 4, Width::Word), Ok(0));
    assert_eq!(dram.read(DRAM_SIZE - 1, Width::Byte), Ok(0));
    assert_eq!(dram.read(SLOT2, Width::Word), Ok(0));
    assert_eq!(dram.read(SLOT3, Width::Word), Ok(0));
    assert!(dram.read_log().is_empty());
    assert_eq!(
        dram.read_actuators(),
        ActuatorCommand { accelerator: 0, brake: 0, steering: 0 }
    );
}

#[test]
fn device_map() {
    assert_eq!(device_at(0), None);
    assert_eq!(device_at(SLOT1 - 1), None);
    assert_eq!(device_at(SLOT1), Some(Device::Log));
    assert_eq!(device_at(SLOT2 - 1), Some(Device::Log));
    assert_eq!(device_at(SLOT2), Some(Device::Sensor));
    assert_eq!(device_at(SLOT3), Some(Device::Actuator));
    assert_eq!(device_at(SLOT4), Some(Device::Reserved));
    assert_eq!(device_at(SLOT5), Some(Device::Reserved));
    assert_eq!(device_at(SLOT6), Some(Device::Reserved));
    assert_eq!(device_at(DEVICE_END - 1), Some(Device::Reserved));
    assert_eq!(device_at(DEVICE_END), None);
    assert!(!in_devices(0xff));
    assert!(in_devices(0x100));
    assert!(in_devices(0x6ff));
    assert!(!in_devices(0x700));
    assert_eq!(Width::Byte.len(), 1);
    assert_eq!(Width::Half.len(), 2);
    assert_eq!(Width::Word.len(), 4);
}

#[test]
fn straddling_is_about_block_boundaries() {
    assert!(straddles(0xff, 2));
    assert!(straddles(0xfd, 4));
    assert!(!straddles(0xfc, 4));
    assert!(!straddles(0x100, 4));
    assert!(straddles(0x1ff, 2));
    assert!(straddles(0x4fe, 4));
    assert!(straddles(0x6ff, 2));
    assert!(!straddles(0x700, 4));
    // a boundary between two blocks of ordinary memory is none
    assert!(!straddles(0x7ff, 2));
    assert!(!straddles(0x1ffe, 4));
    assert!(!straddles(0x1ff, 1));
}

#[test]
fn out_of_bounds_accesses_fault_and_change_nothing() {
    let mut dram = Dram::new();
    assert!(dram.write(DRAM_SIZE - 4, Width::Word, 0x0102_0304).is_ok());
    for (addr, width) in [
        (DRAM_SIZE, Width::Byte),
        (DRAM_SIZE - 1, Width::Half),
        (DRAM_SIZE - 3, Width::Word),
        (DRAM_SIZE - 1, Width::Word),
        (DRAM_SIZE + 100, Width::Word),
        (0xffff_ffff, Width::Byte),
        (0xffff_ffff, Width::Word),
        (0xffff_fffc, Width::Word),
        (0x8000_0000, Width::Half),
    ] {
        assert_eq!(dram.read(addr, width), Err(Fault::OutOfBounds));
        assert_eq!(dram.write(addr, width, 0xffff_ffff), Err(Fault::OutOfBounds));
    }
    assert_eq!(dram.read(DRAM_SIZE - 4, Width::Word), Ok(0x0102_0304));
    assert_eq!(dram.read(DRAM_SIZE - 1, Width::Byte), Ok(0x01));
    assert!(dram.read_log().is_empty());
}

#[test]
fn last_bytes_of_the_arena_are_usable() {
    let mut dram = Dram::new();
    assert_eq!(dram.write(DRAM_SIZE - 1, Width::Byte, 0xab), Ok(()));
    assert_eq!(dram.write(DRAM_SIZE - 4, Width::Half, 0xcdef), Ok(()));
    assert_eq!(dram.read(DRAM_SIZE - 4, Width::Word), Ok(0xab00_cdef));
}

#[test]
fn ordinary_memory_stores_little_endian() {
    let mut dram = Dram::new();
    assert_eq!(dram.write(0x800, Width::Word, 0x1122_3344), Ok(()));
    assert_eq!(dram.read(0x800, Width::Byte), Ok(0x44));
    assert_eq!(dram.read(0x801, Width::Byte), Ok(0x33));
    assert_eq!(dram.read(0x802, Width::Byte), Ok(0x22));
    assert_eq!(dram.read(0x803, Width::Byte), Ok(0x11));
    assert_eq!(dram.read(0x801, Width::Half), Ok(0x2233));
    // unaligned accesses to ordinary memory are fine
    assert_eq!(dram.write(0x801, Width::Word, 0xaabb_ccdd), Ok(()));
    assert_eq!(dram.read(0x800, Width::Word), Ok(0xbbcc_dd44));
    assert_eq!(dram.read(0x804, Width::Byte), Ok(0xaa));
    // a narrow store keeps only the low bytes of the value
    assert_eq!(dram.write(0x900, Width::Byte, 0x1234_5678), Ok(()));
    assert_eq!(dram.read(0x900, Width::Word), Ok(0x78));
    assert_eq!(dram.write(0x910, Width::Half, 0x1234_5678), Ok(()));
    assert_eq!(dram.read(0x910, Width::Word), Ok(0x5678));
}

#[test]
fn memory_below_the_devices_is_ordinary() {
    let mut dram = Dram::new();
    assert_eq!(dram.write(4, Width::Word, 3), Ok(()));
    assert_eq!(dram.read(4, Width::Word), Ok(3));
    assert_eq!(dram.write(0xfc, Width::Word, 0xffff_ffff), Ok(()));
    assert_eq!(dram.read(0xfc, Width::Word), Ok(0xffff_ffff));
}

#[test]
fn log_writes_append_and_reads_return_zero() {
    let mut dram = Dram::new();
    assert_eq!(dram.write(SLOT1, Width::Byte, 0x48), Ok(()));
    assert_eq!(dram.write(SLOT1, Width::Byte, 0x1234_5669), Ok(()));
    assert_eq!(dram.write(SLOT1 + 8, Width::Half, 0x0a21), Ok(()));
    assert_eq!(dram.write(SLOT1 + 0xfc, Width::Word, 0x6463_6261), Ok(()));
    assert_eq!(dram.read_log().as_slice(), b"Hi!\nabcd");
    assert_eq!(dram.read(SLOT1, Width::Word), Ok(0));
    assert_eq!(dram.read(SLOT1 + 8, Width::Half), Ok(0));
    assert_eq!(dram.read(SLOT1 + 0xff, Width::Byte), Ok(0));
    let taken = dram.take_log();
    assert_eq!(taken.as_slice(), b"Hi!\nabcd");
    assert!(dram.read_log().is_empty());
    assert_eq!(dram.write(SLOT1, Width::Byte, 0x7a), Ok(()));
    assert_eq!(dram.read_log().as_slice(), b"z");
}

#[test]
fn sensor_block_is_read_only_for_the_guest() {
    let mut dram = Dram::new();
    let snapshot = SensorSnapshot {
        speed: bits(12.5),
        position_x: bits(-3.0),
        position_y: bits(4.25),
        forward_x: bits(0.6),
        forward_y: bits(-0.8),
    };
    dram.write_sensors(snapshot);
    for (addr, width) in [
        (SLOT2, Width::Word),
        (SLOT2, Width::Byte),
        (SLOT2 + 1, Width::Half),
        (SLOT2 + 0x20, Width::Word),
        (SLOT2 + 0xfc, Width::Word),
        (SLOT2 + 0xff, Width::Byte),
    ] {
        assert_eq!(dram.write(addr, width, 0xffff_ffff), Err(Fault::ReadOnlyViolation));
    }
    assert_eq!(dram.read(SLOT2, Width::Word), Ok(bits(12.5)));
    assert_eq!(dram.read(SLOT2 + 4, Width::Word), Ok(bits(-3.0)));
    assert_eq!(dram.read(SLOT2 + 8, Width::Word), Ok(bits(4.25)));
    assert_eq!(dram.read(SLOT2 + 12, Width::Word), Ok(bits(0.6)));
    assert_eq!(dram.read(SLOT2 + 16, Width::Word), Ok(bits(-0.8)));
    assert_eq!(dram.read(SLOT2 + 20, Width::Word), Ok(0));
    // narrow reads see the bytes of the fields
    assert_eq!(dram.read(SLOT2 + 3, Width::Byte), Ok(bits(12.5) >> 24));
    assert_eq!(dram.read(SLOT2 + 2, Width::Half), Ok(bits(12.5) >> 16));
}

#[test]
fn a_new_snapshot_replaces_the_old_one() {
    let mut dram = Dram::new();
    dram.write_sensors(SensorSnapshot {
        speed: 1,
        position_x: 2,
        position_y: 3,
        forward_x: 4,
        forward_y: 5,
    });
    dram.write_sensors(SensorSnapshot {
        speed: 0xffff_ffff,
        position_x: 0,
        position_y: 0x8000_0000,
        forward_x: 7,
        forward_y: 0x0102_0304,
    });
    assert_eq!(dram.read(SLOT2, Width::Word), Ok(0xffff_ffff));
    assert_eq!(dram.read(SLOT2 + 4, Width::Word), Ok(0));
    assert_eq!(dram.read(SLOT2 + 8, Width::Word), Ok(0x8000_0000));
    assert_eq!(dram.read(SLOT2 + 12, Width::Word), Ok(7));
    assert_eq!(dram.read(SLOT2 + 16, Width::Word), Ok(0x0102_0304));
    // telemetry leaves the commands alone
    assert_eq!(
        dram.read_actuators(),
        ActuatorCommand { accelerator: 0, brake: 0, steering: 0 }
    );
}

#[test]
fn actuator_commands_in_range_read_back() {
    let mut dram = Dram::new();
    assert_eq!(dram.write(SLOT3, Width::Word, bits(0.35)), Ok(()));
    assert_eq!(dram.write(SLOT3 + 4, Width::Word, bits(0.15)), Ok(()));
    assert_eq!(dram.write(SLOT3 + 8, Width::Word, bits(-0.5)), Ok(()));
    assert_eq!(dram.read(SLOT3, Width::Word), Ok(bits(0.35)));
    assert_eq!(dram.read(SLOT3 + 4, Width::Word), Ok(bits(0.15)));
    assert_eq!(dram.read(SLOT3 + 8, Width::Word), Ok(bits(-0.5)));
    let command = dram.read_actuators();
    assert_eq!(f32::from_bits(command.accelerator), 0.35);
    assert_eq!(f32::from_bits(command.brake), 0.15);
    assert_eq!(f32::from_bits(command.steering), -0.5);
    for edge in [0.0f32, 1.0, -0.0] {
        assert_eq!(dram.write(SLOT3, Width::Word, bits(edge)), Ok(()));
        assert_eq!(dram.read(SLOT3, Width::Word), Ok(bits(edge)));
    }
    for edge in [0.0f32, 1.0, -1.0, -0.0] {
        assert_eq!(dram.write(SLOT3 + 8, Width::Word, bits(edge)), Ok(()));
        assert_eq!(dram.read(SLOT3 + 8, Width::Word), Ok(bits(edge)));
    }
}

#[test]
fn actuator_commands_out_of_range_are_clamped() {
    let mut dram = Dram::new();
    let unit: [(f32, f32); 7] = [
        (1.5, 1.0),
        (f32::INFINITY, 1.0),
        (f32::MAX, 1.0),
        (-0.25, 0.0),
        (-1.0, 0.0),
        (f32::NEG_INFINITY, 0.0),
        (f32::NAN, 0.0),
    ];
    for offset in [0u32, 4] {
        for (written, kept) in unit {
            assert_eq!(dram.write(SLOT3 + offset, Width::Word, bits(written)), Ok(()));
            assert_eq!(dram.read(SLOT3 + offset, Width::Word), Ok(bits(kept)));
        }
    }
    let symmetric: [(f32, f32); 7] = [
        (1.5, 1.0),
        (f32::INFINITY, 1.0),
        (-1.5, -1.0),
        (f32::NEG_INFINITY, -1.0),
        (f32::MIN, -1.0),
        (f32::NAN, 0.0),
        (-f32::NAN, 0.0),
    ];
    for (written, kept) in symmetric {
        assert_eq!(dram.write(SLOT3 + 8, Width::Word, bits(written)), Ok(()));
        assert_eq!(dram.read(SLOT3 + 8, Width::Word), Ok(bits(kept)));
    }
    assert!(f32::from_bits(dram.read_actuators().accelerator) >= 0.0);
}

#[test]
fn partial_writes_to_a_command_are_clamped_as_a_whole() {
    let mut dram = Dram::new();
    assert_eq!(dram.write(SLOT3, Width::Word, bits(0.5)), Ok(()));
    // 0.5 is 0x3f000000; raising its top byte to 0x7f gives a huge number
    assert_eq!(dram.write(SLOT3 + 3, Width::Byte, 0x7f), Ok(()));
    assert_eq!(dram.read(SLOT3, Width::Word), Ok(bits(1.0)));
    // the other commands are untouched
    assert_eq!(dram.read(SLOT3 + 4, Width::Word), Ok(0));
    assert_eq!(dram.read(SLOT3 + 8, Width::Word), Ok(0));
}

#[test]
fn rest_of_the_actuator_block_is_plain_storage() {
    let mut dram = Dram::new();
    assert_eq!(dram.write(SLOT3 + 12, Width::Word, 0xffff_ffff), Ok(()));
    assert_eq!(dram.read(SLOT3 + 12, Width::Word), Ok(0xffff_ffff));
    assert_eq!(dram.write(SLOT3 + 0xfe, Width::Half, 0xabcd), Ok(()));
    assert_eq!(dram.read(SLOT3 + 0xfe, Width::Half), Ok(0xabcd));
    assert_eq!(
        dram.read_actuators(),
        ActuatorCommand { accelerator: 0, brake: 0, steering: 0 }
    );
}

#[test]
fn reserved_blocks_read_zero_and_ignore_writes() {
    let mut dram = Dram::new();
    for base in [SLOT4, SLOT5, SLOT6] {
        assert_eq!(dram.write(base, Width::Word, 0xffff_ffff), Ok(()));
        assert_eq!(dram.write(base + 0xff, Width::Byte, 0xff), Ok(()));
        assert_eq!(dram.read(base, Width::Word), Ok(0));
        assert_eq!(dram.read(base + 0xff, Width::Byte), Ok(0));
    }
    assert!(dram.read_log().is_empty());
}

#[test]
fn straddling_accesses_fault() {
    let mut dram = Dram::new();
    for addr in [
        SLOT1 - 1,
        SLOT1 - 3,
        SLOT2 - 2,
        SLOT3 - 1,
        SLOT4 - 3,
        SLOT5 - 1,
        SLOT6 - 1,
        DEVICE_END - 2,
    ] {
        assert_eq!(dram.read(addr, Width::Word), Err(Fault::MisalignedDeviceAccess));
        assert_eq!(
            dram.write(addr, Width::Word, 0x0101_0101),
            Err(Fault::MisalignedDeviceAccess)
        );
    }
    assert_eq!(dram.read(SLOT2 - 1, Width::Half), Err(Fault::MisalignedDeviceAccess));
    assert!(dram.read_log().is_empty());
    assert_eq!(dram.read(SLOT1 - 4, Width::Word), Ok(0));
    assert_eq!(dram.read(DEVICE_END, Width::Word), Ok(0));
    assert_eq!(dram.read(SLOT3 - 4, Width::Word), Ok(0));
}

#[test]
fn fetch_never_uses_the_devices() {
    let mut dram = Dram::new();
    assert_eq!(dram.write(0x1000, Width::Word, 0x0030_0293), Ok(()));
    assert_eq!(dram.fetch(0x1000), Ok(0x0030_0293));
    assert_eq!(dram.fetch(0x1002), Err(Fault::MisalignedFetch));
    assert_eq!(dram.fetch(SLOT1), Err(Fault::ExecuteFromDevice));
    assert_eq!(dram.fetch(SLOT2), Err(Fault::ExecuteFromDevice));
    assert_eq!(dram.fetch(SLOT3), Err(Fault::ExecuteFromDevice));
    assert_eq!(dram.fetch(SLOT6 + 0xfc), Err(Fault::ExecuteFromDevice));
    assert_eq!(dram.fetch(DRAM_SIZE - 4), Ok(0));
    assert_eq!(dram.fetch(DRAM_SIZE), Err(Fault::OutOfBounds));
    assert!(dram.read_log().is_empty());
}
