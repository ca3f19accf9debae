//! The hart: register file, program counter and fault state, and what one
//! instruction does to them and to the arena.

use vstd::prelude::*;
use crate::dram::{Dram, DramState};
use crate::fault::{Fault, FaultRecord};
use crate::inst::{decode, spec_decode, AluOp, Condition, Instruction};
use crate::layout::{Width, DRAM_SIZE};

verus! {

/// The number that a register value stands for when it is read as signed.
pub open spec fn signed(value: u32) -> int {
    if value >= 0x8000_0000 {
        value - 0x1_0000_0000
    } else {
        value as int
    }
}

/// The register value that stands for `value` modulo 2^32.
pub open spec fn wrap(value: int) -> u32 {
    (value % 0x1_0000_0000) as u32
}

/// The result of an arithmetic or logic operation. Nothing here can fault:
/// sums and differences wrap, shifts use the low five bits of their amount.
pub open spec fn spec_alu(op: AluOp, a: u32, b: u32) -> u32 {
    match op {
        AluOp::Add => wrap(a + b),
        AluOp::Sub => wrap(a - b),
        AluOp::Sll => a << (b % 32),
        AluOp::Slt => if signed(a) < signed(b) {
            1
        } else {
            0
        },
        AluOp::Sltu => if a < b {
            1
        } else {
            0
        },
        AluOp::Xor => a ^ b,
        AluOp::Srl => a >> (b % 32),
        AluOp::Sra => (a >> (b % 32)) | (if a >= 0x8000_0000 {
            !(u32::MAX >> (b % 32))
        } else {
            0u32
        }),
        AluOp::Or => a | b,
        AluOp::And => a & b,
    }
}

/// Whether a branch on `cond` is taken for the operands `a` and `b`.
pub open spec fn spec_taken(cond: Condition, a: u32, b: u32) -> bool {
    match cond {
        Condition::Eq => a == b,
        Condition::Ne => a != b,
        Condition::Lt => signed(a) < signed(b),
        Condition::Ge => signed(a) >= signed(b),
        Condition::Ltu => a < b,
        Condition::Geu => a >= b,
    }
}

/// The register value of a loaded byte, halfword or word: the sign bit of a
/// signed load fills the upper bits.
pub open spec fn spec_extend(width: Width, sign: bool, raw: u32) -> u32 {
    match width {
        Width::Byte => if sign && 0x80 <= raw < 0x100 {
            (raw + 0xffff_ff00) as u32
        } else {
            raw
        },
        Width::Half => if sign && 0x8000 <= raw < 0x1_0000 {
            (raw + 0xffff_0000) as u32
        } else {
            raw
        },
        Width::Word => raw,
    }
}

/// Whether control may be transferred to `target`: it is a multiple of four
/// and a whole instruction fits between it and the end of the arena.
pub open spec fn spec_valid_target(target: u32) -> bool {
    target % 4 == 0 && target + 4 <= DRAM_SIZE
}

/// What a hart is: 32 registers, the program counter, and the fault that
/// halted it, if any.
pub struct HartState {
    /// The register file, by register number.
    pub regs: Seq<u32>,
    /// The address of the next instruction.
    pub pc: u32,
    /// The fault that halted the hart.
    pub fault: Option<FaultRecord>,
}

impl HartState {
    /// There are 32 registers, and register 0 holds zero.
    pub open spec fn wf(self) -> bool {
        &&& self.regs.len() == 32
        &&& self.regs[0] == 0
    }

    /// A hart runs until it faults.
    pub open spec fn running(self) -> bool {
        self.fault is None
    }

    /// A running hart at `entry` with all registers zero.
    pub open spec fn reset(entry: u32) -> HartState {
        HartState { regs: Seq::new(32, |i: int| 0u32), pc: entry, fault: None }
    }

    /// The hart after `value` was written to register `rd`. Register 0 takes
    /// no writes.
    pub open spec fn with_reg(self, rd: u8, value: u32) -> HartState {
        if rd == 0 {
            self
        } else {
            HartState { regs: self.regs.update(rd as int, value), ..self }
        }
    }

    /// The hart with the program counter at `pc`.
    pub open spec fn at(self, pc: u32) -> HartState {
        HartState { pc, ..self }
    }

    /// The hart with the program counter at the next instruction.
    pub open spec fn advanced(self) -> HartState {
        self.at(wrap(self.pc + 4))
    }

    /// The hart halted by a fault of the given kind at its current program
    /// counter. Registers and program counter stay as they are.
    pub open spec fn halted(self, kind: Fault, detail: u32) -> HartState {
        HartState { fault: Some(FaultRecord { kind, detail, pc: self.pc }), ..self }
    }
}

/// A hart together with the arena that it owns.
pub struct MachineState {
    /// Registers, program counter, fault.
    pub hart: HartState,
    /// Arena and log.
    pub dram: DramState,
}

impl MachineState {
    /// Both parts are well formed.
    pub open spec fn wf(self) -> bool {
        self.hart.wf() && self.dram.wf()
    }

    /// The machine with another hart state and the same arena.
    pub open spec fn with_hart(self, hart: HartState) -> MachineState {
        MachineState { hart, dram: self.dram }
    }

    /// The machine after `value` was written to register `rd` and the program
    /// counter moved to the next instruction.
    pub open spec fn assign(self, rd: u8, value: u32) -> MachineState {
        self.with_hart(self.hart.with_reg(rd, value).advanced())
    }

    /// The machine after a transfer of control to `target`, with the address
    /// of the next instruction written to the register `link`, if one is
    /// given. An invalid target halts the hart instead, before anything is
    /// written.
    pub open spec fn transfer(self, target: u32, link: Option<u8>) -> MachineState {
        if spec_valid_target(target) {
            match link {
                Some(rd) => self.with_hart(
                    self.hart.with_reg(rd, wrap(self.hart.pc + 4)).at(target),
                ),
                None => self.with_hart(self.hart.at(target)),
            }
        } else {
            self.with_hart(self.hart.halted(Fault::InvalidBranchTarget, target))
        }
    }

    /// The machine after a load from `addr` into register `rd`. A fault of the
    /// arena halts the hart.
    pub open spec fn load(self, width: Width, sign: bool, rd: u8, addr: u32) -> MachineState {
        match self.dram.read(addr, width) {
            Ok(raw) => self.assign(rd, spec_extend(width, sign, raw)),
            Err(fault) => self.with_hart(self.hart.halted(fault, addr)),
        }
    }

    /// The machine after a store of `value` to `addr`. A fault of the arena
    /// halts the hart.
    pub open spec fn store(self, width: Width, addr: u32, value: u32) -> MachineState {
        match self.dram.write(addr, width, value) {
            Ok(dram) => MachineState { hart: self.hart.advanced(), dram },
            Err(fault) => self.with_hart(self.hart.halted(fault, addr)),
        }
    }

    /// The effect of one decoded instruction on a running machine.
    ///
    /// Every fault is found before anything is changed: an instruction either
    /// takes its whole effect, or halts the hart and leaves registers, program
    /// counter and arena as they were.
    pub open spec fn execute(self, inst: Instruction) -> MachineState {
        let hart = self.hart;
        let regs = hart.regs;
        match inst {
            Instruction::Lui { rd, imm } => self.assign(rd, imm),
            Instruction::Auipc { rd, imm } => self.assign(rd, wrap(hart.pc + imm)),
            Instruction::Jal { rd, offset } => self.transfer(wrap(hart.pc + offset), Some(rd)),
            Instruction::Jalr { rd, rs1, offset } => {
                let sum = wrap(regs[rs1 as int] + offset);
                self.transfer((sum - sum % 2) as u32, Some(rd))
            },
            Instruction::Branch { cond, rs1, rs2, offset } => {
                if spec_taken(cond, regs[rs1 as int], regs[rs2 as int]) {
                    self.transfer(wrap(hart.pc + offset), None)
                } else {
                    self.with_hart(hart.advanced())
                }
            },
            Instruction::Load { width, signed, rd, rs1, offset } => self.load(
                width,
                signed,
                rd,
                wrap(regs[rs1 as int] + offset),
            ),
            Instruction::Store { width, rs1, rs2, offset } => self.store(
                width,
                wrap(regs[rs1 as int] + offset),
                regs[rs2 as int],
            ),
            Instruction::OpImm { op, rd, rs1, imm } => self.assign(
                rd,
                spec_alu(op, regs[rs1 as int], imm),
            ),
            Instruction::Op { op, rd, rs1, rs2 } => self.assign(
                rd,
                spec_alu(op, regs[rs1 as int], regs[rs2 as int]),
            ),
            Instruction::Fence => self.with_hart(hart.advanced()),
        }
    }

    /// The effect of the instruction word `word` on a running machine: the
    /// effect of the instruction that it encodes, or an illegal instruction
    /// fault that leaves registers, program counter and arena as they were.
    pub open spec fn execute_word(self, word: u32) -> MachineState {
        match spec_decode(word) {
            Some(inst) => self.execute(inst),
            None => self.with_hart(self.hart.halted(Fault::IllegalInstruction, word)),
        }
    }

    /// One step: fetch, decode, execute. A halted machine stays as it is.
    pub open spec fn step(self) -> MachineState {
        if !self.hart.running() {
            self
        } else {
            match self.dram.fetch(self.hart.pc) {
                Ok(word) => self.execute_word(word),
                Err(fault) => self.with_hart(self.hart.halted(fault, self.hart.pc)),
            }
        }
    }

    /// `budget` steps, one after the other.
    pub open spec fn run(self, budget: nat) -> MachineState
        decreases budget,
    {
        if budget == 0 {
            self
        } else {
            self.step().run((budget - 1) as nat)
        }
    }
}

/// Adds an offset to an address or a register value, modulo 2^32.
pub fn offset_by(base: u32, offset: u32) -> (sum: u32)
    ensures
        sum == wrap(base + offset),
{
    base.wrapping_add(offset)
}

/// Whether `a` is less than `b` when both are read as signed.
pub fn signed_less(a: u32, b: u32) -> (less: bool)
    ensures
        less == (signed(a) < signed(b)),
{
    let a_negative: bool = a >= 0x8000_0000;
    let b_negative: bool = b >= 0x8000_0000;
    if a_negative != b_negative {
        a_negative
    } else {
        a < b
    }
}

/// Computes an arithmetic or logic operation.
#[verifier::when_used_as_spec(spec_alu)]
pub fn alu(op: AluOp, a: u32, b: u32) -> (result: u32)
    ensures
        result == spec_alu(op, a, b),
{
    match op {
        AluOp::Add => offset_by(a, b),
        AluOp::Sub => a.wrapping_sub(b),
        AluOp::Sll => a << (b % 32),
        AluOp::Slt => if signed_less(a, b) {
            1
        } else {
            0
        },
        AluOp::Sltu => if a < b {
            1
        } else {
            0
        },
        AluOp::Xor => a ^ b,
        AluOp::Srl => a >> (b % 32),
        AluOp::Sra => {
            let fill: u32 = if a >= 0x8000_0000 {
                !(u32::MAX >> (b % 32))
            } else {
                0
            };
            (a >> (b % 32)) | fill
        },
        AluOp::Or => a | b,
        AluOp::And => a & b,
    }
}

/// Decides a branch condition.
#[verifier::when_used_as_spec(spec_taken)]
pub fn taken(cond: Condition, a: u32, b: u32) -> (result: bool)
    ensures
        result == spec_taken(cond, a, b),
{
    match cond {
        Condition::Eq => a == b,
        Condition::Ne => a != b,
        Condition::Lt => signed_less(a, b),
        Condition::Ge => !signed_less(a, b),
        Condition::Ltu => a < b,
        Condition::Geu => a >= b,
    }
}

/// Extends a loaded value to a register value.
#[verifier::when_used_as_spec(spec_extend)]
pub fn extend(width: Width, sign: bool, raw: u32) -> (result: u32)
    ensures
        result == spec_extend(width, sign, raw),
{
    match width {
        Width::Byte => if sign && 0x80 <= raw && raw < 0x100 {
            raw + 0xffff_ff00
        } else {
            raw
        },
        Width::Half => if sign && 0x8000 <= raw && raw < 0x1_0000 {
            raw + 0xffff_0000
        } else {
            raw
        },
        Width::Word => raw,
    }
}

/// Checks a jump or branch target.
#[verifier::when_used_as_spec(spec_valid_target)]
pub fn valid_target(target: u32) -> (valid: bool)
    ensures
        valid == spec_valid_target(target),
{
    target % 4 == 0 && target <= DRAM_SIZE - 4
}

/// One instruction-execution unit.
pub struct Hart {
    regs: [u32; 32],
    pc: u32,
    fault: Option<FaultRecord>,
}

impl View for Hart {
    type V = HartState;

    closed spec fn view(&self) -> HartState {
        HartState { regs: self.regs@, pc: self.pc, fault: self.fault }
    }
}

impl Hart {
    /// A running hart at `entry` with all registers zero.
    pub fn new(entry: u32) -> (hart: Hart)
        ensures
            hart@ == HartState::reset(entry),
            hart@.wf(),
    {
        let hart = Hart { regs: [0u32;32], pc: entry, fault: None };
        proof {
            assert(hart@.regs =~= HartState::reset(entry).regs);
        }
        hart
    }

    /// The value of register `index`.
    pub fn reg(&self, index: u8) -> (value: u32)
        requires
            index < 32,
        ensures
            value == self@.regs[index as int],
    {
        self.regs[index as usize]
    }

    /// The address of the next instruction.
    pub fn pc(&self) -> (pc: u32)
        ensures
            pc == self@.pc,
    {
        self.pc
    }

    /// The fault that halted the hart, if any.
    pub fn fault(&self) -> (fault: Option<FaultRecord>)
        ensures
            fault == self@.fault,
    {
        self.fault
    }

    /// Whether the hart has not faulted.
    pub fn is_running(&self) -> (running: bool)
        ensures
            running == self@.running(),
    {
        self.fault.is_none()
    }

    fn write_reg(&mut self, rd: u8, value: u32)
        requires
            rd < 32,
        ensures
            final(self)@ == old(self)@.with_reg(rd, value),
    {
        if rd != 0 {
            self.regs[rd as usize] = value;
        }
        proof {
            assert(self@.regs =~= old(self)@.with_reg(rd, value).regs);
        }
    }

    fn halt(&mut self, kind: Fault, detail: u32)
        ensures
            final(self)@ == old(self)@.halted(kind, detail),
    {
        self.fault = Some(FaultRecord { kind, detail, pc: self.pc });
    }

    fn advance(&mut self)
        ensures
            final(self)@ == old(self)@.advanced(),
    {
        self.pc = offset_by(self.pc, 4);
    }

    fn assign(&mut self, rd: u8, value: u32)
        requires
            rd < 32,
            old(self)@.wf(),
        ensures
            final(self)@ == old(self)@.with_reg(rd, value).advanced(),
            final(self)@.wf(),
    {
        self.write_reg(rd, value);
        self.advance();
    }

    fn transfer(&mut self, target: u32, link: Option<u8>)
        requires
            link matches Some(rd) ==> rd < 32,
            old(self)@.wf(),
        ensures
            final(self)@ == if spec_valid_target(target) {
                match link {
                    Some(rd) => old(self)@.with_reg(rd, wrap(old(self)@.pc + 4)).at(target),
                    None => old(self)@.at(target),
                }
            } else {
                old(self)@.halted(Fault::InvalidBranchTarget, target)
            },
            final(self)@.wf(),
    {
        if valid_target(target) {
            match link {
                Some(rd) => {
                    let next: u32 = offset_by(self.pc, 4);
                    self.write_reg(rd, next);
                },
                None => {},
            }
            self.pc = target;
        } else {
            self.halt(Fault::InvalidBranchTarget, target);
        }
    }

    fn load(&mut self, dram: &Dram, width: Width, sign: bool, rd: u8, addr: u32)
        requires
            rd < 32,
            old(self)@.wf(),
            dram@.wf(),
        ensures
            (MachineState { hart: final(self)@, dram: dram@ }) == (MachineState {
                hart: old(self)@,
                dram: dram@,
            }).load(width, sign, rd, addr),
            final(self)@.wf(),
    {
        match dram.read(addr, width) {
            Ok(raw) => {
                self.assign(rd, extend(width, sign, raw));
            },
            Err(fault) => {
                self.halt(fault, addr);
            },
        }
    }

    fn store(&mut self, dram: &mut Dram, width: Width, addr: u32, value: u32)
        requires
            old(self)@.wf(),
            old(dram)@.wf(),
        ensures
            (MachineState { hart: final(self)@, dram: final(dram)@ }) == (MachineState {
                hart: old(self)@,
                dram: old(dram)@,
            }).store(width, addr, value),
            final(self)@.wf(),
            final(dram)@.wf(),
    {
        match dram.write(addr, width, value) {
            Ok(()) => {
                self.advance();
            },
            Err(fault) => {
                self.halt(fault, addr);
            },
        }
    }

    /// Executes one decoded instruction on a running hart.
    pub fn execute(&mut self, dram: &mut Dram, inst: Instruction)
        requires
            old(self)@.wf(),
            old(self)@.running(),
            old(dram)@.wf(),
            inst.wf(),
        ensures
            (MachineState { hart: final(self)@, dram: final(dram)@ }) == (MachineState {
                hart: old(self)@,
                dram: old(dram)@,
            }).execute(inst),
            final(self)@.wf(),
            final(dram)@.wf(),
    {
        match inst {
            Instruction::Lui { rd, imm } => {
                self.assign(rd, imm);
            },
            Instruction::Auipc { rd, imm } => {
                let value: u32 = offset_by(self.pc, imm);
                self.assign(rd, value);
            },
            Instruction::Jal { rd, offset } => {
                let target: u32 = offset_by(self.pc, offset);
                self.transfer(target, Some(rd));
            },
            Instruction::Jalr { rd, rs1, offset } => {
                let sum: u32 = offset_by(self.regs[rs1 as usize], offset);
                let target: u32 = sum - sum % 2;
                self.transfer(target, Some(rd));
            },
            Instruction::Branch { cond, rs1, rs2, offset } => {
                let target: u32 = offset_by(self.pc, offset);
                if taken(cond, self.regs[rs1 as usize], self.regs[rs2 as usize]) {
                    self.transfer(target, None);
                } else {
                    self.advance();
                }
            },
            Instruction::Load { width, signed, rd, rs1, offset } => {
                let addr: u32 = offset_by(self.regs[rs1 as usize], offset);
                self.load(dram, width, signed, rd, addr);
            },
            Instruction::Store { width, rs1, rs2, offset } => {
                let addr: u32 = offset_by(self.regs[rs1 as usize], offset);
                let value: u32 = self.regs[rs2 as usize];
                self.store(dram, width, addr, value);
            },
            Instruction::OpImm { op, rd, rs1, imm } => {
                let value: u32 = alu(op, self.regs[rs1 as usize], imm);
                self.assign(rd, value);
            },
            Instruction::Op { op, rd, rs1, rs2 } => {
                let value: u32 = alu(op, self.regs[rs1 as usize], self.regs[rs2 as usize]);
                self.assign(rd, value);
            },
            Instruction::Fence => {
                self.advance();
            },
        }
    }

    /// Decodes and executes the instruction word `word` on a running hart.
    pub fn execute_word(&mut self, dram: &mut Dram, word: u32)
        requires
            old(self)@.wf(),
            old(self)@.running(),
            old(dram)@.wf(),
        ensures
            (MachineState { hart: final(self)@, dram: final(dram)@ }) == (MachineState {
                hart: old(self)@,
                dram: old(dram)@,
            }).execute_word(word),
            final(self)@.wf(),
            final(dram)@.wf(),
    {
        match decode(word) {
            Some(inst) => {
                self.execute(dram, inst);
            },
            None => {
                self.halt(Fault::IllegalInstruction, word);
            },
        }
    }

    /// Fetches, decodes and executes one instruction. A halted hart does
    /// nothing. Returns the fault that halts the hart, old or new.
    pub fn step(&mut self, dram: &mut Dram) -> (result: Result<(), FaultRecord>)
        requires
            old(self)@.wf(),
            old(dram)@.wf(),
        ensures
            (MachineState { hart: final(self)@, dram: final(dram)@ }) == (MachineState {
                hart: old(self)@,
                dram: old(dram)@,
            }).step(),
            final(self)@.wf(),
            final(dram)@.wf(),
            result == match final(self)@.fault {
                Some(record) => Err::<(), FaultRecord>(record),
                None => Ok::<(), FaultRecord>(()),
            },
    {
        if let Some(record) = self.fault {
            return Err(record);
        }
        match dram.fetch(self.pc) {
            Ok(word) => {
                self.execute_word(dram, word);
            },
            Err(fault) => {
                let pc: u32 = self.pc;
                self.halt(fault, pc);
            },
        }
        match self.fault {
            Some(record) => Err(record),
            None => Ok(()),
        }
    }
}

} // verus!
