//! What holds of every arena, every machine and every image.

use vstd::arithmetic::power2::pow2;
use vstd::prelude::*;
use crate::controls::{
    in_symmetric_range,
    in_unit_range,
    spec_clamp_symmetric,
    spec_clamp_unit,
    ActuatorCommand,
    SensorSnapshot,
    ACCELERATOR_OFFSET,
    BRAKE_OFFSET,
    FORWARD_X_OFFSET,
    FORWARD_Y_OFFSET,
    POSITION_X_OFFSET,
    POSITION_Y_OFFSET,
    SPEED_OFFSET,
    STEERING_OFFSET,
};
use crate::cpu::{completed_steps, lemma_halted_stays, spec_build, status_of, ticked};
use crate::dram::{
    actuators_of,
    lemma_store_keeps_devices,
    lemma_with_actuators,
    lemma_with_sensors,
    sensors_of,
    with_actuators,
    DramState,
};
use crate::endian::{spec_load_le, spec_store_le, truncate};
use crate::fault::{Fault, FaultRecord, LoadError};
use crate::hart::{signed, spec_alu, HartState, MachineState};
use crate::inst::{spec_decode, AluOp, Instruction};
use crate::layout::{
    spec_device_at,
    spec_straddles,
    Device,
    Width,
    DRAM_SIZE,
    SLOT2,
    SLOT3,
    SLOT4,
};
use crate::loader::{entry_of, spec_load, supported};

verus! {

/// A write that succeeds leaves a well-formed arena, and never touches the
/// sensor block.
pub proof fn lemma_write_keeps_wf(dram: DramState, addr: u32, width: Width, value: u32)
    requires
        dram.wf(),
    ensures
        dram.write(addr, width, value) matches Ok(after) ==> after.wf() && forall|i: int|
            SLOT2 <= i < SLOT3 ==> after.bytes[i] == dram.bytes[i],
{
    if addr + width.spec_len() <= DRAM_SIZE && !spec_straddles(addr, width.spec_len()) {
        let stored = spec_store_le(dram.bytes, addr as int, width, value);
        match spec_device_at(addr) {
            None => {
                lemma_store_keeps_devices(dram.bytes, addr, width, value);
            },
            Some(Device::Actuator) => {
                let command = actuators_of(stored).clamped();
                lemma_with_actuators(stored, command);
                crate::controls::lemma_clamp(actuators_of(stored).accelerator);
                crate::controls::lemma_clamp(actuators_of(stored).brake);
                crate::controls::lemma_clamp(actuators_of(stored).steering);
                assert(with_actuators(stored, command).len() == DRAM_SIZE);
                assert(actuators_of(with_actuators(stored, command)).in_range());
                assert forall|i: int| SLOT2 <= i < SLOT3 implies with_actuators(
                    stored,
                    command,
                )[i] == dram.bytes[i] by {
                    assert(stored[i] == dram.bytes[i]);
                }
            },
            _ => {},
        }
    }
}

/// Every access that reaches beyond the end of the arena is refused as out of
/// bounds, whatever else is wrong with it, and a refused write yields no
/// new arena.
pub proof fn lemma_out_of_bounds(dram: DramState, addr: u32, width: Width, value: u32)
    requires
        addr + width.spec_len() > DRAM_SIZE,
    ensures
        dram.read(addr, width) == Err::<u32, Fault>(Fault::OutOfBounds),
        dram.write(addr, width, value) == Err::<DramState, Fault>(Fault::OutOfBounds),
{
}

/// Every write that lies inside the sensor block faults as a read-only
/// violation, and every read that lies inside it succeeds.
pub proof fn lemma_sensor_block_is_read_only(dram: DramState, addr: u32, width: Width, value: u32)
    requires
        SLOT2 <= addr,
        addr + width.spec_len() <= SLOT3,
    ensures
        dram.write(addr, width, value) == Err::<DramState, Fault>(Fault::ReadOnlyViolation),
        dram.read(addr, width) is Ok,
{
}

/// After the host has supplied a snapshot, the guest reads exactly its fields
/// at their offsets in the sensor block.
pub proof fn lemma_sensors_read_back(dram: DramState, snapshot: SensorSnapshot)
    requires
        dram.wf(),
    ensures
        dram.supply(snapshot).wf(),
        dram.supply(snapshot).sensors() == snapshot,
        dram.supply(snapshot).read((SLOT2 + SPEED_OFFSET) as u32, Width::Word) == Ok::<u32, Fault>(
            snapshot.speed,
        ),
        dram.supply(snapshot).read((SLOT2 + POSITION_X_OFFSET) as u32, Width::Word) == Ok::<
            u32,
            Fault,
        >(snapshot.position_x),
        dram.supply(snapshot).read((SLOT2 + POSITION_Y_OFFSET) as u32, Width::Word) == Ok::<
            u32,
            Fault,
        >(snapshot.position_y),
        dram.supply(snapshot).read((SLOT2 + FORWARD_X_OFFSET) as u32, Width::Word) == Ok::<
            u32,
            Fault,
        >(snapshot.forward_x),
        dram.supply(snapshot).read((SLOT2 + FORWARD_Y_OFFSET) as u32, Width::Word) == Ok::<
            u32,
            Fault,
        >(snapshot.forward_y),
{
    lemma_with_sensors(dram.bytes, snapshot);
    crate::dram::lemma_supply_keeps_actuators(dram.bytes, snapshot);
}

/// Whatever the guest executes, the snapshot in the sensor block stays as the
/// host supplied it.
pub proof fn lemma_guest_keeps_sensors(machine: MachineState, budget: nat)
    requires
        machine.wf(),
    ensures
        machine.run(budget).dram.sensors() == machine.dram.sensors(),
    decreases budget,
{
    if budget > 0 {
        lemma_step_keeps_wf(machine);
        lemma_step_keeps_sensors(machine);
        lemma_guest_keeps_sensors(machine.step(), (budget - 1) as nat);
    }
}

/// One step leaves the snapshot in the sensor block as it was.
pub proof fn lemma_step_keeps_sensors(machine: MachineState)
    requires
        machine.wf(),
    ensures
        machine.step().dram.sensors() == machine.dram.sensors(),
{
    let after = machine.step();
    if after.dram != machine.dram {
        let word = machine.dram.fetch(machine.hart.pc)->Ok_0;
        let inst = spec_decode(word)->Some_0;
        match inst {
            Instruction::Store { width, rs1, rs2, offset } => {
                let addr = crate::hart::wrap(machine.hart.regs[rs1 as int] + offset);
                lemma_write_keeps_wf(machine.dram, addr, width, machine.hart.regs[rs2 as int]);
            },
            _ => {},
        }
    }
}

/// A word written to a command field of the actuator block reads back as the
/// value written if that lies in the range of the field, and as the nearest
/// value of the range if not. No value makes such a write fault.
pub proof fn lemma_actuator_read_back(dram: DramState, value: u32)
    requires
        dram.wf(),
    ensures
        dram.write((SLOT3 + ACCELERATOR_OFFSET) as u32, Width::Word, value) matches Ok(after)
            && after.read((SLOT3 + ACCELERATOR_OFFSET) as u32, Width::Word) == Ok::<u32, Fault>(
            spec_clamp_unit(value),
        ),
        dram.write((SLOT3 + BRAKE_OFFSET) as u32, Width::Word, value) matches Ok(after)
            && after.read((SLOT3 + BRAKE_OFFSET) as u32, Width::Word) == Ok::<u32, Fault>(
            spec_clamp_unit(value),
        ),
        dram.write((SLOT3 + STEERING_OFFSET) as u32, Width::Word, value) matches Ok(after)
            && after.read((SLOT3 + STEERING_OFFSET) as u32, Width::Word) == Ok::<u32, Fault>(
            spec_clamp_symmetric(value),
        ),
        in_unit_range(value) ==> spec_clamp_unit(value) == value,
        in_symmetric_range(value) ==> spec_clamp_symmetric(value) == value,
{
    crate::controls::lemma_clamp(value);
    lemma_field_write(dram, ACCELERATOR_OFFSET, value);
    lemma_field_write(dram, BRAKE_OFFSET, value);
    lemma_field_write(dram, STEERING_OFFSET, value);
}

/// A word written to one command field replaces that command and keeps the
/// other two.
pub proof fn lemma_field_write(dram: DramState, offset: u32, value: u32)
    requires
        dram.wf(),
        offset == ACCELERATOR_OFFSET || offset == BRAKE_OFFSET || offset == STEERING_OFFSET,
    ensures
        dram.write((SLOT3 + offset) as u32, Width::Word, value) matches Ok(after) && after.wf()
            && after.actuators() == (ActuatorCommand {
            accelerator: if offset == ACCELERATOR_OFFSET {
                spec_clamp_unit(value)
            } else {
                dram.actuators().accelerator
            },
            brake: if offset == BRAKE_OFFSET {
                spec_clamp_unit(value)
            } else {
                dram.actuators().brake
            },
            steering: if offset == STEERING_OFFSET {
                spec_clamp_symmetric(value)
            } else {
                dram.actuators().steering
            },
        }),
{
    let addr = (SLOT3 + offset) as u32;
    let stored = spec_store_le(dram.bytes, addr as int, Width::Word, value);
    crate::endian::lemma_load_after_store(dram.bytes, addr as int, Width::Word, value);
    lemma_with_actuators(stored, actuators_of(stored).clamped());
    crate::controls::lemma_clamp(actuators_of(stored).accelerator);
    crate::controls::lemma_clamp(actuators_of(stored).brake);
    crate::controls::lemma_clamp(actuators_of(stored).steering);
}

/// Any write inside the actuator block after which the three commands lie in
/// their ranges is kept as written: it reads back as the value written, cut
/// to its width.
pub proof fn lemma_actuator_write_in_range(dram: DramState, addr: u32, width: Width, value: u32)
    requires
        dram.wf(),
        SLOT3 <= addr,
        addr + width.spec_len() <= SLOT4,
        actuators_of(spec_store_le(dram.bytes, addr as int, width, value)).in_range(),
    ensures
        dram.write(addr, width, value) matches Ok(after) && after.bytes == spec_store_le(
            dram.bytes,
            addr as int,
            width,
            value,
        ) && after.read(addr, width) == Ok::<u32, Fault>(truncate(value, width)),
{
    let stored = spec_store_le(dram.bytes, addr as int, width, value);
    let command = actuators_of(stored);
    crate::controls::lemma_clamp(command.accelerator);
    crate::controls::lemma_clamp(command.brake);
    crate::controls::lemma_clamp(command.steering);
    lemma_commands_put_back(stored);
    crate::endian::lemma_load_after_store(dram.bytes, addr as int, width, value);
}

/// Putting the commands of an arena back where they are changes nothing.
pub proof fn lemma_commands_put_back(bytes: Seq<u8>)
    requires
        bytes.len() == DRAM_SIZE,
    ensures
        with_actuators(bytes, actuators_of(bytes)) == bytes,
{
    let command = actuators_of(bytes);
    let first = spec_store_le(bytes, SLOT3 + ACCELERATOR_OFFSET, Width::Word, command.accelerator);
    assert(first == bytes) by {
        crate::endian::lemma_store_loaded(bytes, SLOT3 + ACCELERATOR_OFFSET, Width::Word);
    }
    let second = spec_store_le(first, SLOT3 + BRAKE_OFFSET, Width::Word, command.brake);
    assert(second == bytes) by {
        crate::endian::lemma_store_loaded(bytes, SLOT3 + BRAKE_OFFSET, Width::Word);
    }
    let third = spec_store_le(second, SLOT3 + STEERING_OFFSET, Width::Word, command.steering);
    assert(third == bytes) by {
        crate::endian::lemma_store_loaded(bytes, SLOT3 + STEERING_OFFSET, Width::Word);
    }
}

/// A write to the actuator block beyond its three command fields reads back
/// as written, cut to its width.
pub proof fn lemma_actuator_block_stores(dram: DramState, addr: u32, width: Width, value: u32)
    requires
        dram.wf(),
        SLOT3 + 12 <= addr,
        addr + width.spec_len() <= SLOT4,
    ensures
        dram.write(addr, width, value) matches Ok(after) && after.read(addr, width) == Ok::<
            u32,
            Fault,
        >(truncate(value, width)),
{
    let stored = spec_store_le(dram.bytes, addr as int, width, value);
    let kept = with_actuators(stored, actuators_of(stored).clamped());
    crate::endian::lemma_load_after_store(dram.bytes, addr as int, width, value);
    lemma_with_actuators(stored, actuators_of(stored).clamped());
    assert forall|i: int| addr <= i < addr + width.spec_len() implies kept[i] == stored[i] by {}
    assert(spec_load_le(kept, addr as int, width) == spec_load_le(stored, addr as int, width)) by {
        assert(kept[addr as int] == stored[addr as int]);
        if width.spec_len() >= 2 {
            assert(kept[addr + 1] == stored[addr + 1]);
        }
        if width.spec_len() == 4 {
            assert(kept[addr + 2] == stored[addr + 2]);
            assert(kept[addr + 3] == stored[addr + 3]);
        }
    }
}

/// One step of a well-formed machine leaves a well-formed machine: there are
/// still 32 registers, register 0 still holds zero, and the commands in the
/// actuator block are still in range.
pub proof fn lemma_step_keeps_wf(machine: MachineState)
    requires
        machine.wf(),
    ensures
        machine.step().wf(),
{
    if machine.hart.running() {
        if let Ok(word) = machine.dram.fetch(machine.hart.pc) {
            if let Some(inst) = spec_decode(word) {
                crate::inst::lemma_decode_wf(word);
                lemma_execute_keeps_wf(machine, inst);
            }
        }
    }
}

/// One instruction leaves a well-formed machine.
pub proof fn lemma_execute_keeps_wf(machine: MachineState, inst: Instruction)
    requires
        machine.wf(),
        inst.wf(),
    ensures
        machine.execute(inst).wf(),
{
    match inst {
        Instruction::Store { width, rs1, rs2, offset } => {
            let addr = crate::hart::wrap(machine.hart.regs[rs1 as int] + offset);
            lemma_write_keeps_wf(machine.dram, addr, width, machine.hart.regs[rs2 as int]);
        },
        _ => {},
    }
}

/// Register 0 reads as zero after any number of steps, whatever the
/// instructions are and whichever registers they name as destination.
pub proof fn lemma_register_zero(machine: MachineState, budget: nat)
    requires
        machine.wf(),
    ensures
        machine.run(budget).wf(),
        machine.run(budget).hart.regs[0] == 0,
    decreases budget,
{
    if budget > 0 {
        lemma_step_keeps_wf(machine);
        lemma_register_zero(machine.step(), (budget - 1) as nat);
    }
}

/// A write to register 0 is dropped, whatever the value.
pub proof fn lemma_register_zero_ignores_writes(hart: HartState, value: u32)
    ensures
        hart.with_reg(0, value) == hart,
{
}

/// What the shifts compute, in numbers: a shift right by `s` places divides
/// by 2^`s` and rounds down, the logical one the value read as unsigned, the
/// arithmetic one the value read as signed; a shift left by `s` places
/// multiplies by 2^`s` modulo 2^32. In each case `s` is the amount modulo 32.
pub proof fn lemma_shifts_in_numbers(value: u32, amount: u32)
    ensures
        spec_alu(AluOp::Srl, value, amount) == value as int / pow2((amount % 32) as nat) as int,
        spec_alu(AluOp::Sll, value, amount) == (value * pow2((amount % 32) as nat))
            % 0x1_0000_0000,
        signed(spec_alu(AluOp::Sra, value, amount)) == signed(value) / pow2(
            (amount % 32) as nat,
        ) as int,
{
    let places: u32 = (amount % 32) as u32;
    let step: int = pow2(places as nat) as int;
    vstd::arithmetic::power2::lemma_pow2_pos(places as nat);
    vstd::arithmetic::power2::lemma2_to64();
    if places < 31 {
        vstd::arithmetic::power2::lemma_pow2_strictly_increases(places as nat, 31);
    }
    assert(0 < step <= 0x8000_0000);
    // logical shift right
    vstd::bits::lemma_u32_shr_is_div(value, places);
    // shift left: in 64 bits nothing is lost, and the low 32 bits are the result
    let wide: u64 = value as u64;
    assert(wide * step <= u64::MAX) by (nonlinear_arith)
        requires
            wide <= 0xffff_ffff,
            0 < step <= 0x8000_0000,
    ;
    vstd::bits::lemma_u64_shl_is_mul(wide, places as u64);
    assert(places < 32 ==> (value << places) as u64 == ((value as u64) << (places as u64))
        % 0x1_0000_0000) by (bit_vector);
    // arithmetic shift right
    if value < 0x8000_0000 {
        assert(value < 0x8000_0000u32 ==> (value >> places) < 0x8000_0000u32) by (bit_vector);
        assert((value >> places) | 0u32 == value >> places) by (bit_vector);
    } else {
        let flipped: u32 = (0xffff_ffff - value) as u32;
        assert(value >= 0x8000_0000u32 && places < 32 ==> (value >> places) | !(0xffff_ffffu32
            >> places) == !((!value) >> places)) by (bit_vector);
        assert(!value == 0xffff_ffff - value) by (bit_vector);
        let quotient: u32 = flipped >> places;
        vstd::bits::lemma_u32_shr_is_div(flipped, places);
        assert(!quotient == 0xffff_ffff - quotient) by (bit_vector);
        let rest: int = flipped as int % step;
        vstd::arithmetic::div_mod::lemma_fundamental_div_mod(flipped as int, step);
        vstd::arithmetic::div_mod::lemma_mod_bound(flipped as int, step);
        assert(quotient as int == flipped as int / step);
        assert(quotient <= flipped) by (nonlinear_arith)
            requires
                quotient as int == flipped as int / step,
                step >= 1,
                flipped >= 0,
        ;
        // value - 2^32 == -(flipped + 1) == (-quotient - 1) * step + (step - rest - 1)
        assert(signed(value) == (-(quotient as int) - 1) * step + (step - rest - 1))
            by (nonlinear_arith)
            requires
                signed(value) == -(flipped as int) - 1,
                flipped as int == step * (quotient as int) + rest,
        ;
        vstd::arithmetic::div_mod::lemma_fundamental_div_mod_converse(
            signed(value),
            step,
            -(quotient as int) - 1,
            step - rest - 1,
        );
    }
}

/// A program counter that is a multiple of four stays one: a fault leaves it
/// where it is, a sequential instruction adds four, and a transfer only takes
/// effect to a target that is a multiple of four.
pub proof fn lemma_pc_stays_aligned(machine: MachineState, budget: nat)
    requires
        machine.hart.pc % 4 == 0,
    ensures
        machine.run(budget).hart.pc % 4 == 0,
    decreases budget,
{
    if budget > 0 {
        if machine.hart.running() {
            if let Ok(word) = machine.dram.fetch(machine.hart.pc) {
                assert(machine.hart.pc + 4 <= DRAM_SIZE);
                assert(crate::hart::wrap(machine.hart.pc + 4) == machine.hart.pc + 4);
            }
        }
        lemma_pc_stays_aligned(machine.step(), (budget - 1) as nat);
    }
}

/// A word that is no supported instruction halts the hart with an illegal
/// instruction fault that names the word, and leaves registers, program
/// counter and arena exactly as they were before the fetch.
pub proof fn lemma_illegal_instruction(machine: MachineState, word: u32)
    requires
        machine.hart.running(),
        machine.dram.fetch(machine.hart.pc) == Ok::<u32, Fault>(word),
        spec_decode(word) is None,
    ensures
        machine.step().hart.fault == Some(
            FaultRecord { kind: Fault::IllegalInstruction, detail: word, pc: machine.hart.pc },
        ),
        machine.step().hart.regs == machine.hart.regs,
        machine.step().hart.pc == machine.hart.pc,
        machine.step().dram == machine.dram,
{
}

/// A step is atomic: the step that halts a hart changes neither registers nor
/// program counter nor arena, and records the program counter of the
/// instruction that faulted.
pub proof fn lemma_fault_is_atomic(machine: MachineState)
    requires
        machine.hart.running(),
        !machine.step().hart.running(),
    ensures
        machine.step().hart.regs == machine.hart.regs,
        machine.step().hart.pc == machine.hart.pc,
        machine.step().dram == machine.dram,
        machine.step().hart.fault->Some_0.pc == machine.hart.pc,
{
    if let Ok(word) = machine.dram.fetch(machine.hart.pc) {
        if let Some(inst) = spec_decode(word) {
            lemma_execute_fault_is_atomic(machine, inst);
        }
    }
}

/// The instruction that halts a hart changes neither registers nor program
/// counter nor arena.
pub proof fn lemma_execute_fault_is_atomic(machine: MachineState, inst: Instruction)
    requires
        machine.hart.running(),
        !machine.execute(inst).hart.running(),
    ensures
        machine.execute(inst).hart.regs == machine.hart.regs,
        machine.execute(inst).hart.pc == machine.hart.pc,
        machine.execute(inst).dram == machine.dram,
        machine.execute(inst).hart.fault->Some_0.pc == machine.hart.pc,
{
    match inst {
        Instruction::Lui { .. } => {},
        Instruction::Auipc { .. } => {},
        Instruction::Jal { .. } => {},
        Instruction::Jalr { .. } => {},
        Instruction::Branch { .. } => {},
        Instruction::Load { .. } => {},
        Instruction::Store { .. } => {},
        Instruction::OpImm { .. } => {},
        Instruction::Op { .. } => {},
        Instruction::Fence => {},
    }
}

/// Whether the next `count` steps of the machine each execute an instruction
/// that is no jump and no branch, without faulting.
pub open spec fn straight_line(machine: MachineState, count: nat) -> bool
    decreases count,
{
    count == 0 || {
        &&& machine.hart.running()
        &&& machine.dram.fetch(machine.hart.pc) matches Ok(word) && (spec_decode(
            word,
        ) matches Some(inst) && !inst.is_transfer())
        &&& machine.step().hart.running()
        &&& straight_line(machine.step(), (count - 1) as nat)
    }
}

/// A machine that executes `count` sequential instructions without a fault
/// has completed `count` steps, still runs, and has its program counter
/// exactly `4 * count` further.
pub proof fn lemma_straight_line_advances(machine: MachineState, count: nat)
    requires
        straight_line(machine, count),
    ensures
        count > 0 ==> machine.run(count).hart.running(),
        machine.run(count).hart.pc == machine.hart.pc + 4 * count,
        completed_steps(machine, count) == count,
    decreases count,
{
    if count > 0 {
        lemma_sequential_step(machine);
        lemma_straight_line_advances(machine.step(), (count - 1) as nat);
    }
}

/// An instruction that is no jump and no branch, and does not fault, moves
/// the program counter to the next instruction.
pub proof fn lemma_sequential_step(machine: MachineState)
    requires
        machine.hart.running(),
        machine.dram.fetch(machine.hart.pc) matches Ok(word) && (spec_decode(word) matches Some(
            inst,
        ) && !inst.is_transfer()),
        machine.step().hart.running(),
    ensures
        machine.step().hart.pc == machine.hart.pc + 4,
{
    let word = machine.dram.fetch(machine.hart.pc)->Ok_0;
    let inst = spec_decode(word)->Some_0;
    assert(machine.hart.pc + 4 <= DRAM_SIZE);
    assert(crate::hart::wrap(machine.hart.pc + 4) == machine.hart.pc + 4);
    assert(machine.step() == machine.execute(inst));
}

/// A machine that faults in step number `done + 1` has completed `done` steps
/// however large the budget, and stays as that step left it: halted, with
/// registers, program counter and arena as they were when the faulting
/// instruction was fetched.
pub proof fn lemma_halts_at_fault(machine: MachineState, done: nat, budget: nat)
    requires
        done < budget,
        machine.run(done).hart.running(),
        !machine.run(done + 1).hart.running(),
    ensures
        machine.run(budget) == machine.run(done + 1),
        completed_steps(machine, budget) == done,
        machine.run(budget).hart.regs == machine.run(done).hart.regs,
        machine.run(budget).hart.pc == machine.run(done).hart.pc,
        machine.run(budget).dram == machine.run(done).dram,
        machine.run(budget).hart.fault->Some_0.pc == machine.run(done).hart.pc,
    decreases done,
{
    if done == 0 {
        assert(machine.run(1) == machine.step().run(0));
        lemma_halted_stays(machine.step(), (budget - 1) as nat);
        lemma_fault_is_atomic(machine);
    } else {
        if !machine.step().hart.running() {
            lemma_halted_stays(machine.step(), (done - 1) as nat);
        }
        assert(machine.run(done + 1) == machine.step().run(done));
        lemma_halts_at_fault(machine.step(), (done - 1) as nat, (budget - 1) as nat);
    }
}

/// An image of the supported architecture whose entry address is no multiple
/// of four is rejected with an invalid entry point, and no machine is built
/// from it.
pub proof fn lemma_unaligned_entry_is_rejected(image: Seq<u8>)
    requires
        supported(image),
        entry_of(image) % 4 != 0,
    ensures
        spec_load(image) == Err::<(DramState, u32), LoadError>(LoadError::InvalidEntryPoint),
        spec_build(image) == Err::<MachineState, LoadError>(LoadError::InvalidEntryPoint),
{
}

/// Every machine that is built from an image is well formed and runs, with
/// all registers zero and the program counter at the entry point of the
/// image.
pub proof fn lemma_built_machine(image: Seq<u8>)
    ensures
        spec_build(image) matches Ok(machine) ==> machine.wf() && machine.hart.running()
            && machine.hart.pc % 4 == 0 && machine.hart == HartState::reset(
            spec_load(image)->Ok_0.1,
        ),
{
    crate::loader::lemma_loaded_is_well_formed(image);
}

/// The machine after one tick for each of the `snapshots`, in their order.
pub open spec fn after_ticks(
    machine: MachineState,
    snapshots: Seq<SensorSnapshot>,
    budget: nat,
) -> MachineState
    decreases snapshots.len(),
{
    if snapshots.len() == 0 {
        machine
    } else {
        after_ticks(ticked(machine, snapshots[0], budget), snapshots.drop_first(), budget)
    }
}

/// Two machines built from the same image and given the same snapshots tick
/// by tick are in the same state after every tick: they command the same
/// and they have faulted alike.
pub proof fn lemma_determinism(
    image: Seq<u8>,
    first: MachineState,
    second: MachineState,
    snapshots: Seq<SensorSnapshot>,
    budget: nat,
)
    requires
        spec_build(image) == Ok::<MachineState, LoadError>(first),
        spec_build(image) == Ok::<MachineState, LoadError>(second),
    ensures
        after_ticks(first, snapshots, budget) == after_ticks(second, snapshots, budget),
        after_ticks(first, snapshots, budget).dram.actuators() == after_ticks(
            second,
            snapshots,
            budget,
        ).dram.actuators(),
        status_of(after_ticks(first, snapshots, budget)) == status_of(
            after_ticks(second, snapshots, budget),
        ),
{
}

} // verus!
