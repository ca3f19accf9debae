//! A hart bound to the arena that it owns: one sandboxed guest.

use vstd::prelude::*;
use crate::controls::{ActuatorCommand, SensorSnapshot};
use crate::dram::{Dram, DramState};
use crate::fault::{Fault, FaultRecord, LoadError};
use crate::hart::{Hart, HartState, MachineState};
use crate::loader::{load, spec_load};

verus! {

/// What the host learns of a guest after stepping it: it still runs, or it is
/// halted by the given fault.
pub type StepResult = Result<(), FaultRecord>;

/// What the host learns of a machine in the given state.
pub open spec fn status_of(machine: MachineState) -> StepResult {
    match machine.hart.fault {
        Some(record) => Err(record),
        None => Ok(()),
    }
}

/// The number of steps, out of at most `budget`, that a machine completes
/// without faulting.
pub open spec fn completed_steps(machine: MachineState, budget: nat) -> nat
    decreases budget,
{
    if budget == 0 || !machine.step().hart.running() {
        0
    } else {
        1 + completed_steps(machine.step(), (budget - 1) as nat)
    }
}

/// The machine after one tick: the host supplies the telemetry of the tick,
/// then the guest runs for at most `budget` steps.
pub open spec fn ticked(
    machine: MachineState,
    snapshot: SensorSnapshot,
    budget: nat,
) -> MachineState {
    (MachineState { hart: machine.hart, dram: machine.dram.supply(snapshot) }).run(budget)
}

/// One guest: registers and program counter, and the arena with its devices.
/// Nothing of a `Cpu` is shared with any other.
pub struct Cpu {
    /// Register file, program counter and fault state.
    pub hart: Hart,
    /// The arena that this hart alone reads and writes.
    pub dram: Dram,
}

impl View for Cpu {
    type V = MachineState;

    open spec fn view(&self) -> MachineState {
        MachineState { hart: self.hart@, dram: self.dram@ }
    }
}

/// What building a guest from an image yields: a running machine at the entry
/// point of the image, over the arena that the image describes.
pub open spec fn spec_build(image: Seq<u8>) -> Result<MachineState, LoadError> {
    match spec_load(image) {
        Ok((dram, entry)) => Ok(MachineState { hart: HartState::reset(entry), dram }),
        Err(error) => Err(error),
    }
}

/// Builds guests from program images.
#[derive(Default)]
pub struct CpuBuilder {}

impl CpuBuilder {
    /// Loads `elf` and returns a hart at its entry point together with the
    /// arena that it is to run on. A rejected image yields neither.
    pub fn build(self, elf: &[u8]) -> (result: Result<(Hart, Dram), LoadError>)
        ensures
            match spec_build(elf@) {
                Ok(machine) => result matches Ok((hart, dram)) && hart@ == machine.hart && dram@
                    == machine.dram && machine.wf(),
                Err(error) => result matches Err(reported) && reported == error,
            },
    {
        match load(elf) {
            Ok((dram, entry)) => Ok((Hart::new(entry), dram)),
            Err(error) => Err(error),
        }
    }
}

impl Cpu {
    /// Loads `image` into a guest that is ready to run. A rejected image
    /// yields no guest.
    pub fn load(image: &[u8]) -> (result: Result<Cpu, LoadError>)
        ensures
            match spec_build(image@) {
                Ok(machine) => result matches Ok(cpu) && cpu@ == machine && machine.wf(),
                Err(error) => result matches Err(reported) && reported == error,
            },
    {
        match load(image) {
            Ok((dram, entry)) => Ok(Cpu::new(dram, entry)),
            Err(error) => Err(error),
        }
    }

    /// Binds a fresh hart to `dram`, ready to run from `entry`.
    pub fn new(dram: Dram, entry: u32) -> (cpu: Cpu)
        requires
            dram@.wf(),
        ensures
            cpu@ == (MachineState { hart: HartState::reset(entry), dram: dram@ }),
            cpu@.wf(),
    {
        Cpu { hart: Hart::new(entry), dram }
    }

    /// Reads the instruction word at the program counter.
    pub fn fetch(&self) -> (result: Result<u32, Fault>)
        requires
            self@.wf(),
        ensures
            result == self@.dram.fetch(self@.hart.pc),
    {
        self.dram.fetch(self.hart.pc())
    }

    /// Decodes and executes the instruction word `inst`. A halted guest does
    /// nothing. Returns the status after the instruction.
    pub fn execute(&mut self, inst: u32) -> (result: StepResult)
        requires
            old(self)@.wf(),
        ensures
            final(self)@ == if old(self)@.hart.running() {
                old(self)@.execute_word(inst)
            } else {
                old(self)@
            },
            final(self)@.wf(),
            result == status_of(final(self)@),
    {
        if self.hart.is_running() {
            self.hart.execute_word(&mut self.dram, inst);
        }
        self.status()
    }

    /// Fetches, decodes and executes one instruction. A halted guest does
    /// nothing. Returns the status after the step.
    pub fn step(&mut self) -> (result: StepResult)
        requires
            old(self)@.wf(),
        ensures
            final(self)@ == old(self)@.step(),
            final(self)@.wf(),
            result == status_of(final(self)@),
    {
        self.hart.step(&mut self.dram)
    }

    /// Runs the guest for at most `budget` steps and stops at the first fault.
    /// Returns the number of steps that completed without a fault.
    pub fn run(&mut self, budget: u32) -> (completed: u32)
        requires
            old(self)@.wf(),
        ensures
            final(self)@ == old(self)@.run(budget as nat),
            final(self)@.wf(),
            completed == completed_steps(old(self)@, budget as nat),
            completed <= budget,
    {
        let mut done: u32 = 0;
        while done < budget
            invariant
                done <= budget,
                self@.wf(),
                self@.run((budget - done) as nat) == old(self)@.run(budget as nat),
                done + completed_steps(self@, (budget - done) as nat) == completed_steps(
                    old(self)@,
                    budget as nat,
                ),
            decreases budget - done,
        {
            let ghost before = self@;
            match self.step() {
                Ok(()) => {
                    done += 1;
                },
                Err(_) => {
                    proof {
                        lemma_halted_stays(self@, (budget - done - 1) as nat);
                    }
                    return done;
                },
            }
        }
        done
    }

    /// One tick of the simulation for this guest: takes the telemetry of the
    /// tick, runs the guest for at most `budget` steps, and returns the
    /// commands that it has pending afterwards, each within its range.
    pub fn tick(&mut self, snapshot: SensorSnapshot, budget: u32) -> (command: ActuatorCommand)
        requires
            old(self)@.wf(),
        ensures
            final(self)@ == ticked(old(self)@, snapshot, budget as nat),
            final(self)@.wf(),
            command == final(self)@.dram.actuators(),
            command.in_range(),
    {
        self.write_sensors(snapshot);
        self.run(budget);
        self.read_actuators()
    }

    /// Whether the guest still runs, or the fault that halted it.
    pub fn status(&self) -> (result: StepResult)
        ensures
            result == status_of(self@),
    {
        match self.hart.fault() {
            Some(record) => Err(record),
            None => Ok(()),
        }
    }

    /// Puts the telemetry of the current tick where the guest reads it.
    pub fn write_sensors(&mut self, snapshot: SensorSnapshot)
        requires
            old(self)@.wf(),
        ensures
            final(self)@ == (MachineState {
                hart: old(self)@.hart,
                dram: old(self)@.dram.supply(snapshot),
            }),
            final(self)@.wf(),
            final(self)@.dram.sensors() == snapshot,
    {
        self.dram.write_sensors(snapshot);
    }

    /// The commands that the guest has pending, each within its range.
    pub fn read_actuators(&self) -> (command: ActuatorCommand)
        requires
            self@.wf(),
        ensures
            command == self@.dram.actuators(),
            command.in_range(),
    {
        self.dram.read_actuators()
    }

    /// Everything that the guest has logged and the host has not yet taken.
    pub fn read_log(&self) -> (log: &Vec<u8>)
        ensures
            log@ == self@.dram.log,
    {
        self.dram.read_log()
    }

    /// Hands the logged bytes to the host and empties the log.
    pub fn take_log(&mut self) -> (log: Vec<u8>)
        ensures
            log@ == old(self)@.dram.log,
            final(self)@ == (MachineState {
                hart: old(self)@.hart,
                dram: DramState { bytes: old(self)@.dram.bytes, log: Seq::empty() },
            }),
            old(self)@.wf() ==> final(self)@.wf(),
    {
        self.dram.take_log()
    }
}

/// A halted machine does not change any more, however often it is stepped.
pub proof fn lemma_halted_stays(machine: MachineState, budget: nat)
    requires
        !machine.hart.running(),
    ensures
        machine.run(budget) == machine,
        completed_steps(machine, budget) == 0,
    decreases budget,
{
    if budget > 0 {
        lemma_halted_stays(machine, (budget - 1) as nat);
    }
}

} // verus!
