use botracers::cpu::Cpu;
use botracers::dram::Dram;
use botracers::fault::{Fault, FaultRecord};
use botracers::inst::{decode, extension_of, AluOp, Condition, Extension, Instruction};
use botracers::layout::{Width, DRAM_SIZE};

fn r_type(funct7: u32, rs2: u32, rs1: u32, funct3: u32, rd: u32, opcode: u32) -> u32 {
    (funct7 << 25) | (rs2 << 20) | (rs1 << 15) | (funct3 << 12) | (rd << 7) | opcode
}

fn i_type(imm: i32, rs1: u32, funct3: u32, rd: u32, opcode: u32) -> u32 {
    (((imm as u32) & 0xfff) << 20) | (rs1 << 15) | (funct3 << 12) | (rd << 7) | opcode
}

fn s_type(imm: i32, rs2: u32, rs1: u32, funct3: u32) -> u32 {
    let imm = imm as u32;
    (((imm >> 5) & 0x7f) << 25) | (rs2 << 20) | (rs1 << 15) | (funct3 << 12) | ((imm & 0x1f) << 7)
        | 0x23
}

fn b_type(imm: i32, rs2: u32, rs1: u32, funct3: u32) -> u32 {
    let imm = imm as u32;
    (((imm >> 12) & 1) << 31)
        | (((imm >> 5) & 0x3f) << 25)
        | (rs2 << 20)
        | (rs1 << 15)
        | (funct3 << 12)
        | (((imm >> 1) & 0xf) << 8)
        | (((imm >> 11) & 1) << 7)
        | 0x63
}

fn u_type(imm: u32, rd: u32, opcode: u32) -> u32 {
    (imm & 0xffff_f000) | (rd << 7) | opcode
}

fn j_type(imm: i32, rd: u32) -> u32 {
    let imm = imm as u32;
    (((imm >> 20) & 1) << 31)
        | (((imm >> 1) & 0x3ff) << 21)
        | (((imm >> 11) & 1) << 20)
        | (((imm >> 12) & 0xff) << 12)
        | (rd << 7)
        | 0x6f
}

fn addi(rd: u32, rs1: u32, imm: i32) -> u32 {
    i_type(imm, rs1, 0, rd, 0x13)
}

fn machine() -> Cpu {
    Cpu::new(Dram::new(), 0x1000)
}

/// Puts an arbitrary word into a register with `lui` and `addi`.
fn set(cpu: &mut Cpu, rd: u32, value: u32) {
    let low = (value & 0xfff) as i32;
    let low = if low >= 0x800 { low - 0x1000 } else { low };
    let high = value.wrapping_sub(low as u32);
    assert!(cpu.execute(u_type(high, rd, 0x37)).is_ok());
    assert!(cpu.execute(addi(rd, rd, low)).is_ok());
    assert_eq!(cpu.hart.reg(rd as u8), value);
}

fn op(cpu: &mut Cpu, funct7: u32, funct3: u32, a: u32, b: u32) -> u32 {
    set(cpu, 1, a);
    set(cpu, 2, b);
    assert!(cpu.execute(r_type(funct7, 2, 1, funct3, 3, 0x33)).is_ok());
    cpu.hart.reg(3)
}

#[test]
fn addi_round_trip_leaves_zero() {
    let mut cpu = Cpu::new(Dram::new(), 0);
    assert_eq!(addi(5, 0, 3), 0x0030_0293);
    assert!(cpu.execute(addi(5, 0, 3)).is_ok());
    assert_eq!(cpu.hart.reg(5), 3);
    assert!(cpu.execute(addi(5, 5, -3)).is_ok());
    assert_eq!(cpu.hart.reg(5), 0);
    assert_eq!(cpu.hart.pc(), 8);
}

#[test]
fn new_hart_is_zeroed_and_running() {
    let cpu = Cpu::new(Dram::new(), 0x2000);
    for index in 0..32u8 {
        assert_eq!(cpu.hart.reg(index), 0);
    }
    assert_eq!(cpu.hart.pc(), 0x2000);
    assert!(cpu.hart.is_running());
    assert_eq!(cpu.hart.fault(), None);
    assert_eq!(cpu.status(), Ok(()));
}

#[test]
fn register_zero_ignores_every_write() {
    let mut cpu = machine();
    assert!(cpu.execute(addi(0, 0, 5)).is_ok());
    assert_eq!(cpu.hart.reg(0), 0);
    assert!(cpu.execute(u_type(0xdead_b000, 0, 0x37)).is_ok());
    assert_eq!(cpu.hart.reg(0), 0);
    assert!(cpu.execute(u_type(0x1000, 0, 0x17)).is_ok());
    assert_eq!(cpu.hart.reg(0), 0);
    set(&mut cpu, 1, 7);
    assert!(cpu.execute(r_type(0, 1, 1, 0, 0, 0x33)).is_ok());
    assert_eq!(cpu.hart.reg(0), 0);
    // jal x0 links nothing
    assert!(cpu.execute(j_type(8, 0)).is_ok());
    assert_eq!(cpu.hart.reg(0), 0);
    // lw x0, 0(x0)
    assert!(cpu.execute(i_type(0, 0, 2, 0, 0x03)).is_ok());
    assert_eq!(cpu.hart.reg(0), 0);
}

#[test]
fn addi_wraps_around() {
    let mut cpu = machine();
    set(&mut cpu, 1, 0xffff_ffff);
    assert!(cpu.execute(addi(2, 1, 1)).is_ok());
    assert_eq!(cpu.hart.reg(2), 0);
    assert!(cpu.execute(addi(2, 0, -1)).is_ok());
    assert_eq!(cpu.hart.reg(2), 0xffff_ffff);
    assert!(cpu.execute(addi(2, 0, -2048)).is_ok());
    assert_eq!(cpu.hart.reg(2), 0xffff_f800);
    assert!(cpu.execute(addi(2, 0, 2047)).is_ok());
    assert_eq!(cpu.hart.reg(2), 2047);
}

#[test]
fn register_register_arithmetic() {
    let mut cpu = machine();
    assert_eq!(op(&mut cpu, 0, 0, 7, 5), 12);
    assert_eq!(op(&mut cpu, 0, 0, 0xffff_ffff, 2), 1);
    assert_eq!(op(&mut cpu, 0x20, 0, 7, 5), 2);
    assert_eq!(op(&mut cpu, 0x20, 0, 5, 7), 0xffff_fffe);
    assert_eq!(op(&mut cpu, 0, 4, 0b1100, 0b1010), 0b0110);
    assert_eq!(op(&mut cpu, 0, 6, 0b1100, 0b1010), 0b1110);
    assert_eq!(op(&mut cpu, 0, 7, 0b1100, 0b1010), 0b1000);
}

#[test]
fn shifts_use_five_bits_of_the_amount() {
    let mut cpu = machine();
    assert_eq!(op(&mut cpu, 0, 1, 1, 4), 16);
    assert_eq!(op(&mut cpu, 0, 1, 1, 36), 16);
    assert_eq!(op(&mut cpu, 0, 1, 0x8000_0001, 1), 2);
    assert_eq!(op(&mut cpu, 0, 1, 3, 32), 3);
    assert_eq!(op(&mut cpu, 0, 5, 0x8000_0000, 4), 0x0800_0000);
    assert_eq!(op(&mut cpu, 0, 5, 0x8000_0000, 36), 0x0800_0000);
    assert_eq!(op(&mut cpu, 0x20, 5, 0x8000_0000, 4), 0xf800_0000);
    assert_eq!(op(&mut cpu, 0x20, 5, 0x8000_0000, 31), 0xffff_ffff);
    assert_eq!(op(&mut cpu, 0x20, 5, 0x4000_0000, 4), 0x0400_0000);
    assert_eq!(op(&mut cpu, 0x20, 5, 0xffff_fff0, 0), 0xffff_fff0);
}

#[test]
fn immediate_shifts() {
    let mut cpu = machine();
    set(&mut cpu, 1, 0x8000_00f0);
    // slli x2, x1, 4
    assert!(cpu.execute(i_type(4, 1, 1, 2, 0x13)).is_ok());
    assert_eq!(cpu.hart.reg(2), 0x0000_0f00);
    // srli x2, x1, 4
    assert!(cpu.execute(i_type(4, 1, 5, 2, 0x13)).is_ok());
    assert_eq!(cpu.hart.reg(2), 0x0800_000f);
    // srai x2, x1, 4
    assert!(cpu.execute(i_type(0x400 | 4, 1, 5, 2, 0x13)).is_ok());
    assert_eq!(cpu.hart.reg(2), 0xf800_000f);
}

#[test]
fn comparisons_are_signed_or_unsigned_as_named() {
    let mut cpu = machine();
    // slt: -1 < 1
    assert_eq!(op(&mut cpu, 0, 2, 0xffff_ffff, 1), 1);
    assert_eq!(op(&mut cpu, 0, 2, 1, 0xffff_ffff), 0);
    assert_eq!(op(&mut cpu, 0, 2, 5, 5), 0);
    assert_eq!(op(&mut cpu, 0, 2, 0x8000_0000, 0x7fff_ffff), 1);
    // sltu: 0xffffffff is the largest
    assert_eq!(op(&mut cpu, 0, 3, 0xffff_ffff, 1), 0);
    assert_eq!(op(&mut cpu, 0, 3, 1, 0xffff_ffff), 1);
    set(&mut cpu, 1, 0xffff_fff0);
    // slti x2, x1, -1 : -16 < -1
    assert!(cpu.execute(i_type(-1, 1, 2, 2, 0x13)).is_ok());
    assert_eq!(cpu.hart.reg(2), 1);
    // sltiu x2, x1, -1 : 0xfffffff0 < 0xffffffff
    assert!(cpu.execute(i_type(-1, 1, 3, 2, 0x13)).is_ok());
    assert_eq!(cpu.hart.reg(2), 1);
    // sltiu x2, x1, 1
    assert!(cpu.execute(i_type(1, 1, 3, 2, 0x13)).is_ok());
    assert_eq!(cpu.hart.reg(2), 0);
}

#[test]
fn logic_immediates_are_sign_extended() {
    let mut cpu = machine();
    set(&mut cpu, 1, 0x0f0f_0f0f);
    assert!(cpu.execute(i_type(-1, 1, 4, 2, 0x13)).is_ok());
    assert_eq!(cpu.hart.reg(2), 0xf0f0_f0f0);
    assert!(cpu.execute(i_type(0xf0, 1, 6, 2, 0x13)).is_ok());
    assert_eq!(cpu.hart.reg(2), 0x0f0f_0fff);
    assert!(cpu.execute(i_type(0xff, 1, 7, 2, 0x13)).is_ok());
    assert_eq!(cpu.hart.reg(2), 0x0f);
}

#[test]
fn lui_and_auipc() {
    let mut cpu = machine();
    assert!(cpu.execute(u_type(0x1234_5000, 1, 0x37)).is_ok());
    assert_eq!(cpu.hart.reg(1), 0x1234_5000);
    assert_eq!(cpu.hart.pc(), 0x1004);
    assert!(cpu.execute(u_type(0x0001_0000, 2, 0x17)).is_ok());
    assert_eq!(cpu.hart.reg(2), 0x0001_1004);
    assert_eq!(cpu.hart.pc(), 0x1008);
}

#[test]
fn jal_links_and_jumps() {
    let mut cpu = machine();
    assert!(cpu.execute(j_type(0x20, 1)).is_ok());
    assert_eq!(cpu.hart.reg(1), 0x1004);
    assert_eq!(cpu.hart.pc(), 0x1020);
    assert!(cpu.execute(j_type(-0x20, 2)).is_ok());
    assert_eq!(cpu.hart.reg(2), 0x1024);
    assert_eq!(cpu.hart.pc(), 0x1000);
}

#[test]
fn jalr_clears_the_lowest_bit() {
    let mut cpu = machine();
    set(&mut cpu, 1, 0x2001);
    let pc = cpu.hart.pc();
    // jalr x5, 3(x1): 0x2004
    assert!(cpu.execute(i_type(3, 1, 0, 5, 0x67)).is_ok());
    assert_eq!(cpu.hart.pc(), 0x2004);
    assert_eq!(cpu.hart.reg(5), pc + 4);
}

#[test]
fn invalid_jump_target_faults_before_anything_changes() {
    let mut cpu = machine();
    set(&mut cpu, 1, 0x2002);
    let pc = cpu.hart.pc();
    // jalr x5, 0(x1): 0x2002 is not a multiple of four
    let result = cpu.execute(i_type(0, 1, 0, 5, 0x67));
    assert_eq!(
        result,
        Err(FaultRecord { kind: Fault::InvalidBranchTarget, detail: 0x2002, pc })
    );
    assert_eq!(cpu.hart.pc(), pc);
    assert_eq!(cpu.hart.reg(5), 0);
    assert!(!cpu.hart.is_running());
}

#[test]
fn jump_beyond_the_arena_faults() {
    let mut cpu = Cpu::new(Dram::new(), DRAM_SIZE - 4);
    let result = cpu.execute(j_type(4, 1));
    assert_eq!(
        result,
        Err(FaultRecord {
            kind: Fault::InvalidBranchTarget,
            detail: DRAM_SIZE,
            pc: DRAM_SIZE - 4
        })
    );
    assert_eq!(cpu.hart.reg(1), 0);
    assert_eq!(cpu.hart.pc(), DRAM_SIZE - 4);
}

#[test]
fn branches_taken_and_not_taken() {
    let cases: [(u32, u32, u32, bool); 14] = [
        (0, 5, 5, true),
        (0, 5, 6, false),
        (1, 5, 6, true),
        (1, 5, 5, false),
        (4, 0xffff_ffff, 1, true),
        (4, 1, 0xffff_ffff, false),
        (5, 1, 0xffff_ffff, true),
        (5, 0xffff_ffff, 1, false),
        (5, 3, 3, true),
        (6, 1, 0xffff_ffff, true),
        (6, 0xffff_ffff, 1, false),
        (7, 0xffff_ffff, 1, true),
        (7, 1, 0xffff_ffff, false),
        (7, 3, 3, true),
    ];
    for (funct3, a, b, taken) in cases {
        let mut cpu = machine();
        set(&mut cpu, 1, a);
        set(&mut cpu, 2, b);
        let pc = cpu.hart.pc();
        assert!(cpu.execute(b_type(0x40, 2, 1, funct3)).is_ok());
        assert_eq!(cpu.hart.pc(), if taken { pc + 0x40 } else { pc + 4 });
    }
}

#[test]
fn backward_branch() {
    let mut cpu = machine();
    let pc = cpu.hart.pc();
    assert!(cpu.execute(b_type(-8, 0, 0, 0)).is_ok());
    assert_eq!(cpu.hart.pc(), pc - 8);
}

#[test]
fn untaken_branch_to_a_bad_target_is_no_fault() {
    let mut cpu = machine();
    set(&mut cpu, 1, 1);
    let pc = cpu.hart.pc();
    // bne x0, x0 is never taken; its target (pc + 2) would be misaligned
    assert!(cpu.execute(b_type(2, 0, 0, 1)).is_ok());
    assert_eq!(cpu.hart.pc(), pc + 4);
    // beq x0, x0 is always taken
    let result = cpu.execute(b_type(2, 0, 0, 0));
    assert_eq!(
        result,
        Err(FaultRecord { kind: Fault::InvalidBranchTarget, detail: pc + 6, pc: pc + 4 })
    );
    assert_eq!(cpu.hart.pc(), pc + 4);
}

#[test]
fn stores_and_loads_round_trip() {
    let mut cpu = machine();
    set(&mut cpu, 1, 0x8000);
    set(&mut cpu, 2, 0x1234_80fe);
    // sw x2, 4(x1)
    assert!(cpu.execute(s_type(4, 2, 1, 2)).is_ok());
    assert_eq!(cpu.dram.read(0x8004, Width::Word), Ok(0x1234_80fe));
    assert_eq!(cpu.dram.read(0x8004, Width::Byte), Ok(0xfe));
    assert_eq!(cpu.dram.read(0x8005, Width::Byte), Ok(0x80));
    assert_eq!(cpu.dram.read(0x8006, Width::Half), Ok(0x1234));
    // lw x3, 4(x1)
    assert!(cpu.execute(i_type(4, 1, 2, 3, 0x03)).is_ok());
    assert_eq!(cpu.hart.reg(3), 0x1234_80fe);
    // lb x3, 4(x1): sign extended
    assert!(cpu.execute(i_type(4, 1, 0, 3, 0x03)).is_ok());
    assert_eq!(cpu.hart.reg(3), 0xffff_fffe);
    // lbu x3, 4(x1)
    assert!(cpu.execute(i_type(4, 1, 4, 3, 0x03)).is_ok());
    assert_eq!(cpu.hart.reg(3), 0xfe);
    // lh x3, 4(x1): sign extended
    assert!(cpu.execute(i_type(4, 1, 1, 3, 0x03)).is_ok());
    assert_eq!(cpu.hart.reg(3), 0xffff_80fe);
    // lhu x3, 4(x1)
    assert!(cpu.execute(i_type(4, 1, 5, 3, 0x03)).is_ok());
    assert_eq!(cpu.hart.reg(3), 0x80fe);
    // lh x3, 6(x1): positive
    assert!(cpu.execute(i_type(6, 1, 1, 3, 0x03)).is_ok());
    assert_eq!(cpu.hart.reg(3), 0x1234);
}

#[test]
fn narrow_stores_keep_the_neighbours() {
    let mut cpu = machine();
    set(&mut cpu, 1, 0x8000);
    set(&mut cpu, 2, 0xaabb_ccdd);
    assert!(cpu.execute(s_type(0, 2, 1, 2)).is_ok());
    set(&mut cpu, 3, 0x1122_3344);
    // sb x3, 1(x1)
    assert!(cpu.execute(s_type(1, 3, 1, 0)).is_ok());
    assert_eq!(cpu.dram.read(0x8000, Width::Word), Ok(0xaabb_44dd));
    // sh x3, 2(x1)
    assert!(cpu.execute(s_type(2, 3, 1, 1)).is_ok());
    assert_eq!(cpu.dram.read(0x8000, Width::Word), Ok(0x3344_44dd));
    // negative offset: sw x3, -4(x1)
    assert!(cpu.execute(s_type(-4, 3, 1, 2)).is_ok());
    assert_eq!(cpu.dram.read(0x7ffc, Width::Word), Ok(0x1122_3344));
}

#[test]
fn load_fault_leaves_the_destination_alone() {
    let mut cpu = machine();
    set(&mut cpu, 3, 77);
    set(&mut cpu, 1, DRAM_SIZE - 2);
    let pc = cpu.hart.pc();
    // lw x3, 0(x1)
    let result = cpu.execute(i_type(0, 1, 2, 3, 0x03));
    assert_eq!(
        result,
        Err(FaultRecord { kind: Fault::OutOfBounds, detail: DRAM_SIZE - 2, pc })
    );
    assert_eq!(cpu.hart.reg(3), 77);
    assert_eq!(cpu.hart.pc(), pc);
    assert_eq!(cpu.hart.fault(), result.err());
}

#[test]
fn store_to_the_sensor_block_halts_the_hart() {
    let mut cpu = machine();
    set(&mut cpu, 1, 0x200);
    let pc = cpu.hart.pc();
    let result = cpu.execute(s_type(0, 1, 1, 2));
    assert_eq!(
        result,
        Err(FaultRecord { kind: Fault::ReadOnlyViolation, detail: 0x200, pc })
    );
    assert_eq!(cpu.hart.pc(), pc);
}

#[test]
fn halted_hart_executes_nothing() {
    let mut cpu = machine();
    let fault = cpu.execute(0).err();
    assert!(fault.is_some());
    let pc = cpu.hart.pc();
    assert_eq!(cpu.execute(addi(5, 0, 3)).err(), fault);
    assert_eq!(cpu.hart.reg(5), 0);
    assert_eq!(cpu.hart.pc(), pc);
    assert_eq!(cpu.step().err(), fault);
    assert_eq!(cpu.run(10), 0);
    assert_eq!(cpu.status().err(), fault);
}

#[test]
fn illegal_words_fault_and_change_nothing() {
    let words: [u32; 12] = [
        0x0000_0000,
        0xffff_ffff,
        0x0000_0073,                      // ecall
        0x0010_0073,                      // ebreak
        r_type(1, 2, 1, 0, 3, 0x33),      // mul
        r_type(0x20, 2, 1, 1, 3, 0x33),   // no such operation
        i_type(0, 1, 3, 3, 0x03),         // ld does not exist here
        s_type(0, 2, 1, 3),               // sd does not exist here
        b_type(8, 2, 1, 2),               // no such condition
        i_type(0, 1, 1, 5, 0x67),         // jalr with a minor opcode
        i_type(0x20 << 5 | 3, 1, 1, 2, 0x13), // slli with upper bits
        0x0000_100f,                      // fence.i
    ];
    for word in words {
        assert_eq!(decode(word), None);
        let mut cpu = machine();
        set(&mut cpu, 1, 11);
        set(&mut cpu, 2, 22);
        let pc = cpu.hart.pc();
        let result = cpu.execute(word);
        assert_eq!(
            result,
            Err(FaultRecord { kind: Fault::IllegalInstruction, detail: word, pc })
        );
        assert_eq!(cpu.hart.pc(), pc);
        assert_eq!(cpu.hart.reg(1), 11);
        assert_eq!(cpu.hart.reg(2), 22);
        assert_eq!(cpu.hart.reg(3), 0);
        assert_eq!(cpu.hart.reg(5), 0);
    }
}

#[test]
fn decode_reads_every_format() {
    assert_eq!(
        decode(0x0030_0293),
        Some(Instruction::OpImm { op: AluOp::Add, rd: 5, rs1: 0, imm: 3 })
    );
    assert_eq!(
        decode(addi(5, 5, -3)),
        Some(Instruction::OpImm { op: AluOp::Add, rd: 5, rs1: 5, imm: 0xffff_fffd })
    );
    assert_eq!(
        decode(r_type(0x20, 31, 30, 0, 29, 0x33)),
        Some(Instruction::Op { op: AluOp::Sub, rd: 29, rs1: 30, rs2: 31 })
    );
    assert_eq!(
        decode(s_type(-4, 7, 8, 2)),
        Some(Instruction::Store { width: Width::Word, rs1: 8, rs2: 7, offset: 0xffff_fffc })
    );
    assert_eq!(
        decode(s_type(2047, 7, 8, 0)),
        Some(Instruction::Store { width: Width::Byte, rs1: 8, rs2: 7, offset: 2047 })
    );
    assert_eq!(
        decode(b_type(-4096, 2, 1, 5)),
        Some(Instruction::Branch { cond: Condition::Ge, rs1: 1, rs2: 2, offset: 0xffff_f000 })
    );
    assert_eq!(
        decode(b_type(4094, 2, 1, 6)),
        Some(Instruction::Branch { cond: Condition::Ltu, rs1: 1, rs2: 2, offset: 4094 })
    );
    assert_eq!(
        decode(j_type(-1048576, 1)),
        Some(Instruction::Jal { rd: 1, offset: 0xfff0_0000 })
    );
    assert_eq!(
        decode(j_type(1048574, 1)),
        Some(Instruction::Jal { rd: 1, offset: 1048574 })
    );
    assert_eq!(
        decode(u_type(0xabcd_e000, 9, 0x17)),
        Some(Instruction::Auipc { rd: 9, imm: 0xabcd_e000 })
    );
    assert_eq!(
        decode(i_type(-1, 3, 4, 2, 0x03)),
        Some(Instruction::Load {
            width: Width::Byte,
            signed: false,
            rd: 2,
            rs1: 3,
            offset: 0xffff_ffff
        })
    );
    assert_eq!(
        decode(i_type(0x400 | 31, 1, 5, 2, 0x13)),
        Some(Instruction::OpImm { op: AluOp::Sra, rd: 2, rs1: 1, imm: 31 })
    );
    assert_eq!(decode(0x0ff0_000f), Some(Instruction::Fence));
}

#[test]
fn fence_only_advances() {
    let mut cpu = machine();
    let pc = cpu.hart.pc();
    assert!(cpu.execute(0x0ff0_000f).is_ok());
    assert_eq!(cpu.hart.pc(), pc + 4);
}

#[test]
fn fetch_reads_little_endian_words() {
    let mut cpu = machine();
    assert!(cpu.dram.write(0x1000, Width::Byte, 0x93).is_ok());
    assert!(cpu.dram.write(0x1001, Width::Byte, 0x02).is_ok());
    assert!(cpu.dram.write(0x1002, Width::Byte, 0x30).is_ok());
    assert!(cpu.dram.write(0x1003, Width::Byte, 0x00).is_ok());
    assert_eq!(cpu.fetch(), Ok(0x0030_0293));
    assert_eq!(cpu.step(), Ok(()));
    assert_eq!(cpu.hart.reg(5), 3);
    assert_eq!(cpu.hart.pc(), 0x1004);
}

#[test]
fn fetch_faults() {
    let cpu = Cpu::new(Dram::new(), 0x1002);
    assert_eq!(cpu.fetch(), Err(Fault::MisalignedFetch));
    let cpu = Cpu::new(Dram::new(), DRAM_SIZE);
    assert_eq!(cpu.fetch(), Err(Fault::OutOfBounds));
    let cpu = Cpu::new(Dram::new(), 0xffff_fffc);
    assert_eq!(cpu.fetch(), Err(Fault::OutOfBounds));
    let cpu = Cpu::new(Dram::new(), 0x100);
    assert_eq!(cpu.fetch(), Err(Fault::ExecuteFromDevice));
    let cpu = Cpu::new(Dram::new(), 0x6fc);
    assert_eq!(cpu.fetch(), Err(Fault::ExecuteFromDevice));
    let cpu = Cpu::new(Dram::new(), 0x101);
    assert_eq!(cpu.fetch(), Err(Fault::MisalignedFetch));
    let cpu = Cpu::new(Dram::new(), 0xfc);
    assert_eq!(cpu.fetch(), Ok(0));
    let cpu = Cpu::new(Dram::new(), 0x700);
    assert_eq!(cpu.fetch(), Ok(0));
    let cpu = Cpu::new(Dram::new(), DRAM_SIZE - 4);
    assert_eq!(cpu.fetch(), Ok(0));
}

#[test]
fn step_records_a_fetch_fault_with_the_program_counter() {
    let mut cpu = Cpu::new(Dram::new(), 0x300);
    assert_eq!(
        cpu.step(),
        Err(FaultRecord { kind: Fault::ExecuteFromDevice, detail: 0x300, pc: 0x300 })
    );
    assert_eq!(cpu.hart.pc(), 0x300);
    let mut cpu = Cpu::new(Dram::new(), 0x1001);
    assert_eq!(
        cpu.step(),
        Err(FaultRecord { kind: Fault::MisalignedFetch, detail: 0x1001, pc: 0x1001 })
    );
}

#[test]
fn unsupported_extensions_are_told_apart() {
    // c.nop, and the word of all zeros
    assert_eq!(extension_of(0x0000_0001), Some(Extension::Compressed));
    assert_eq!(extension_of(0x0000_0000), Some(Extension::Compressed));
    assert_eq!(extension_of(0xffff_fffe), Some(Extension::Compressed));
    // mul x3, x1, x2 and divu x3, x1, x2
    assert_eq!(extension_of(r_type(1, 2, 1, 0, 3, 0x33)), Some(Extension::Multiply));
    assert_eq!(extension_of(r_type(1, 2, 1, 5, 3, 0x33)), Some(Extension::Multiply));
    // lr.w x3, (x1)
    assert_eq!(extension_of(r_type(0x08, 0, 1, 2, 3, 0x2f)), Some(Extension::Atomic));
    // flw, fsw, fmadd.s, fadd.s
    assert_eq!(extension_of(i_type(0, 1, 2, 3, 0x07)), Some(Extension::Float));
    assert_eq!(extension_of(0x0020_a027), Some(Extension::Float));
    assert_eq!(extension_of(r_type(0, 2, 1, 0, 3, 0x43)), Some(Extension::Float));
    assert_eq!(extension_of(r_type(0, 2, 1, 0, 3, 0x53)), Some(Extension::Float));
    // what is supported, and what is illegal for other reasons
    assert_eq!(extension_of(addi(5, 0, 3)), None);
    assert_eq!(extension_of(r_type(0, 2, 1, 0, 3, 0x33)), None);
    assert_eq!(extension_of(0x0000_0073), None);
    assert_eq!(extension_of(0xffff_ffff), None);
    let words =
        [0u32, 1, r_type(1, 2, 1, 0, 3, 0x33), 0x0020_a027, r_type(0x08, 0, 1, 2, 3, 0x2f)];
    for word in words {
        assert!(extension_of(word).is_some());
        assert_eq!(decode(word), None);
    }
}
