//! The simulator: one register bank, one memory and one program, driven
//! through the cycle of fetching, decoding and executing instructions.

use vstd::prelude::*;
use crate::conversion::{FromRegister, IntoRegister};
use crate::error::{LoadError, ParseError};
use crate::layout::DATA_SIZE;
use crate::memory::{Memory, MemoryModel};
use crate::program::{check_code, first_invalid_at, valid_code, Instruction, ProgramImage};
use crate::register_bank::{BankModel, RegisterBank};

verus! {

/// Where a simulator stands in its life.
#[derive(Clone, Copy, Debug, PartialEq, Eq, Structural)]
pub enum Phase {
    /// Fresh: no program was loaded.
    Idle,
    /// A program was loaded and no instruction has run.
    Loaded,
    /// At least one instruction has run and the program has not ended.
    Running,
    /// The program has halted or run off its end.
    Terminated,
}

/// The mathematical state of a simulator.
pub struct MachineState {
    /// The registers.
    pub bank: BankModel,
    /// The memory.
    pub memory: MemoryModel,
    /// The loaded instructions.
    pub code: Seq<Instruction>,
    /// The index of the next instruction.
    pub pc: int,
    /// The phase of the lifecycle.
    pub phase: Phase,
}

impl MachineState {
    /// The parts are well formed, the program counter is inside the program
    /// or at its end, every instruction is valid, and an idle simulator holds
    /// no program.
    pub open spec fn wf(self) -> bool {
        &&& self.bank.wf()
        &&& self.memory.wf()
        &&& 0 <= self.pc <= self.code.len()
        &&& valid_code(self.code)
        &&& self.phase == Phase::Idle ==> self.code.len() == 0 && self.pc == 0
    }

    /// The state of a fresh simulator.
    pub open spec fn idle() -> MachineState {
        MachineState {
            bank: BankModel::zeroed(),
            memory: MemoryModel::zeroed(),
            code: Seq::empty(),
            pc: 0,
            phase: Phase::Idle,
        }
    }

    /// The state after `code` and `data` are installed.
    pub open spec fn loaded(self, code: Seq<Instruction>, data: Seq<u8>) -> MachineState {
        MachineState {
            memory: self.memory.with_image(data),
            code,
            pc: 0,
            phase: Phase::Loaded,
            ..self
        }
    }

    /// Whether the program has ended.
    pub open spec fn terminated(self) -> bool {
        self.phase == Phase::Terminated
    }

    /// The state after one cycle. Past the end of the program, and at a
    /// halt, the simulator terminates and nothing else changes. Any other
    /// instruction has its effect on registers and memory and moves the
    /// program counter to the next instruction or to its target.
    pub open spec fn step(self) -> MachineState {
        if self.pc >= self.code.len() {
            MachineState { phase: Phase::Terminated, ..self }
        } else {
            let next = self.pc + 1;
            match self.code[self.pc] {
                Instruction::Halt => MachineState { phase: Phase::Terminated, ..self },
                Instruction::LoadImmediate { rd, value } => MachineState {
                    bank: self.bank.write(rd as int, value),
                    pc: next,
                    phase: Phase::Running,
                    ..self
                },
                Instruction::Add { rd, rs1, rs2 } => MachineState {
                    bank: self.bank.write(
                        rd as int,
                        self.bank.integers[rs1 as int].wrapping_add(self.bank.integers[rs2 as int]),
                    ),
                    pc: next,
                    phase: Phase::Running,
                    ..self
                },
                Instruction::Compare { flag, rs1, rs2 } => MachineState {
                    bank: self.bank.write_flag(
                        flag as int,
                        if self.bank.integers[rs1 as int] == self.bank.integers[rs2 as int] {
                            1u32
                        } else {
                            0u32
                        },
                    ),
                    pc: next,
                    phase: Phase::Running,
                    ..self
                },
                Instruction::Jump { target } => MachineState {
                    pc: target as int,
                    phase: Phase::Running,
                    ..self
                },
                Instruction::BranchIfSet { flag, target } => MachineState {
                    pc: if self.bank.flag(flag as int) != 0 {
                        target as int
                    } else {
                        next
                    },
                    phase: Phase::Running,
                    ..self
                },
                Instruction::LoadData { rd, address } => MachineState {
                    bank: self.bank.write(rd as int, self.memory.data[address as int].spec_into()),
                    pc: next,
                    phase: Phase::Running,
                    ..self
                },
                Instruction::StoreData { rs, address } => MachineState {
                    memory: self.memory.store(
                        address as int,
                        u8::spec_from(self.bank.integers[rs as int]),
                    ),
                    pc: next,
                    phase: Phase::Running,
                    ..self
                },
                Instruction::Draw { rs, offset } => MachineState {
                    memory: self.memory.draw(
                        offset as int,
                        u8::spec_from(self.bank.integers[rs as int]),
                    ),
                    pc: next,
                    phase: Phase::Running,
                    ..self
                },
                Instruction::SwapFrame => MachineState {
                    memory: self.memory.swap(),
                    pc: next,
                    phase: Phase::Running,
                    ..self
                },
            }
        }
    }

    /// The state after at most `cycles` cycles: the simulator stops early
    /// once the program has ended.
    pub open spec fn run(self, cycles: nat) -> MachineState
        decreases cycles,
    {
        if cycles == 0 || self.terminated() {
            self
        } else {
            self.step().run((cycles - 1) as nat)
        }
    }
}

/// A simulator: registers, memory, the loaded program and its program
/// counter.
pub struct Simulator {
    register_bank: RegisterBank,
    memory: Memory,
    code: Vec<Instruction>,
    pc: usize,
    phase: Phase,
}

/// Whether `error` is what refuses the program `code` with the data image
/// `data`: a bad operand at the first instruction that has one, or else a
/// data image over capacity.
pub open spec fn refused_with(code: Seq<Instruction>, data: Seq<u8>, error: LoadError) -> bool {
    match error {
        LoadError::Parse(error) => {
            &&& !valid_code(code)
            &&& error matches ParseError::BadOperand { location }
            &&& first_invalid_at(code, location as int)
        },
        LoadError::CapacityExceeded => {
            &&& valid_code(code)
            &&& data.len() > DATA_SIZE
        },
    }
}

/// Whether `result` is what loading `code` and `data` into the state `before`
/// gives. Bad operands are reported first, with the place of the first one;
/// then a data image over capacity; a program with neither fault is always
/// installed.
pub open spec fn loads_as(
    before: MachineState,
    code: Seq<Instruction>,
    data: Seq<u8>,
    result: Result<Simulator, LoadError>,
) -> bool {
    match result {
        Ok(simulator) => {
            &&& valid_code(code)
            &&& data.len() <= DATA_SIZE
            &&& simulator.wf()
            &&& simulator@ == before.loaded(code, data)
        },
        Err(error) => refused_with(code, data, error),
    }
}

impl View for Simulator {
    type V = MachineState;

    closed spec fn view(&self) -> MachineState {
        MachineState {
            bank: self.register_bank@,
            memory: self.memory@,
            code: self.code@,
            pc: self.pc as int,
            phase: self.phase,
        }
    }
}

impl Simulator {
    /// The invariant of the simulator: see [`MachineState::wf`].
    pub open spec fn wf(&self) -> bool {
        self@.wf()
    }

    /// An idle simulator: no instructions, zeroed registers, zeroed memory
    /// and the program counter at zero.
    pub fn new() -> (simulator: Simulator)
        ensures
            simulator.wf(),
            simulator@ == MachineState::idle(),
    {
        let simulator = Simulator {
            register_bank: RegisterBank::new(),
            memory: Memory::new(),
            code: Vec::new(),
            pc: 0,
            phase: Phase::Idle,
        };
        assert(simulator@.code =~= MachineState::idle().code);
        simulator
    }

    /// Installs a program in an idle simulator. An instruction with an
    /// operand out of range refuses the program, and the error names the
    /// first such instruction; otherwise a data image larger than the data
    /// segment refuses it for capacity; otherwise the simulator comes back
    /// loaded, with the image in its data segment, zero-padded, its registers
    /// as they were and the program counter at zero.
    pub fn load(self, image: ProgramImage) -> (result: Result<Simulator, LoadError>)
        requires
            self.wf(),
            self@.phase == Phase::Idle,
        ensures
            loads_as(self@, image.code@, image.data@, result),
    {
        let mut simulator = self;
        let ProgramImage { code, data } = image;
        match check_code(code.as_slice()) {
            Some(location) => {
                return Err(LoadError::Parse(ParseError::BadOperand { location }));
            },
            None => {},
        }
        match simulator.memory.load_data(data.as_slice()) {
            Ok(()) => {},
            Err(error) => {
                return Err(error);
            },
        }
        simulator.code = code;
        simulator.pc = 0;
        simulator.phase = Phase::Loaded;
        Ok(simulator)
    }

    /// Installs the outcome of parsing a program source: a parse error is
    /// handed on and the simulator is dropped; a parsed image is loaded as
    /// by [`Simulator::load`].
    pub fn load_parsed(self, parsed: Result<ProgramImage, ParseError>) -> (result: Result<
        Simulator,
        LoadError,
    >)
        requires
            self.wf(),
            self@.phase == Phase::Idle,
        ensures
            match parsed {
                Err(error) => result matches Err(e) && e == LoadError::Parse(error),
                Ok(image) => loads_as(self@, image.code@, image.data@, result),
            },
    {
        match parsed {
            Err(error) => Err(LoadError::Parse(error)),
            Ok(image) => self.load(image),
        }
    }

    /// The phase of the lifecycle that the simulator is in.
    pub fn phase(&self) -> (phase: Phase)
        ensures
            phase == self@.phase,
    {
        self.phase
    }

    /// The index of the next instruction.
    pub fn program_counter(&self) -> (pc: usize)
        ensures
            pc == self@.pc,
    {
        self.pc
    }

    /// Whether the program has ended.
    pub fn is_terminated(&self) -> (ended: bool)
        ensures
            ended == self@.terminated(),
    {
        match self.phase {
            Phase::Terminated => true,
            _ => false,
        }
    }

    /// The registers.
    pub fn register_bank(&self) -> (bank: &RegisterBank)
        ensures
            bank@ == self@.bank,
    {
        &self.register_bank
    }

    /// The memory.
    pub fn memory(&self) -> (memory: &Memory)
        ensures
            memory@ == self@.memory,
    {
        &self.memory
    }

    /// A copy of the frame that the host sees.
    pub fn read_frame(&self) -> (frame: Vec<u8>)
        requires
            self.wf(),
        ensures
            frame@ == self@.memory.front_frame(),
    {
        self.memory.read_frame()
    }

    /// Runs one cycle: fetches the instruction at the program counter,
    /// executes it and advances.
    pub fn step(&mut self)
        requires
            old(self).wf(),
            old(self)@.phase != Phase::Idle,
        ensures
            final(self).wf(),
            final(self)@ == old(self)@.step(),
    {
        proof {
            lemma_step_preserves_wf(self@);
        }
        if self.pc >= self.code.len() {
            self.phase = Phase::Terminated;
            return ;
        }
        let instruction = self.code[self.pc];
        assert(instruction.valid(self.code@.len() as int));
        let next: usize = self.pc + 1;
        match instruction {
            Instruction::Halt => {
                self.phase = Phase::Terminated;
                return ;
            },
            Instruction::LoadImmediate { rd, value } => {
                self.register_bank.set_register::<u32>(rd as usize, value);
                self.pc = next;
            },
            Instruction::Add { rd, rs1, rs2 } => {
                let a: u32 = self.register_bank.get_register::<u32>(rs1 as usize);
                let b: u32 = self.register_bank.get_register::<u32>(rs2 as usize);
                self.register_bank.set_register::<u32>(rd as usize, a.wrapping_add(b));
                self.pc = next;
            },
            Instruction::Compare { flag, rs1, rs2 } => {
                let a: u32 = self.register_bank.get_register::<u32>(rs1 as usize);
                let b: u32 = self.register_bank.get_register::<u32>(rs2 as usize);
                let value: u32 = if a == b {
                    1
                } else {
                    0
                };
                self.register_bank.set_status(flag as usize, value);
                self.pc = next;
            },
            Instruction::Jump { target } => {
                self.pc = target;
            },
            Instruction::BranchIfSet { flag, target } => {
                if self.register_bank.get_status(flag as usize) != 0 {
                    self.pc = target;
                } else {
                    self.pc = next;
                }
            },
            Instruction::LoadData { rd, address } => {
                let byte: u8 = self.memory.read_data(address);
                self.register_bank.set_register::<u8>(rd as usize, byte);
                self.pc = next;
            },
            Instruction::StoreData { rs, address } => {
                let byte: u8 = self.register_bank.get_register::<u8>(rs as usize);
                self.memory.write_data(address, byte);
                self.pc = next;
            },
            Instruction::Draw { rs, offset } => {
                let byte: u8 = self.register_bank.get_register::<u8>(rs as usize);
                self.memory.draw(offset, byte);
                self.pc = next;
            },
            Instruction::SwapFrame => {
                self.memory.swap_frame();
                self.pc = next;
            },
        }
        self.phase = Phase::Running;
    }

    /// Runs at most `cycles` cycles and stops early once the program has
    /// ended. Says whether it has ended.
    pub fn run_for(&mut self, cycles: u64) -> (ended: bool)
        requires
            old(self).wf(),
            old(self)@.phase != Phase::Idle,
        ensures
            final(self).wf(),
            final(self)@ == old(self)@.run(cycles as nat),
            ended == final(self)@.terminated(),
    {
        let mut left: u64 = cycles;
        while left > 0 && !self.is_terminated()
            invariant
                self.wf(),
                self@.phase != Phase::Idle,
                left <= cycles,
                self@.run(left as nat) == old(self)@.run(cycles as nat),
            decreases left,
        {
            proof {
                lemma_step_preserves_wf(self@);
            }
            self.step();
            left -= 1;
        }
        self.is_terminated()
    }
}

/// One cycle keeps a state well formed and never leads back to the idle or
/// the loaded phase.
pub proof fn lemma_step_preserves_wf(state: MachineState)
    requires
        state.wf(),
    ensures
        state.step().wf(),
        state.step().code == state.code,
        state.step().phase == Phase::Running || state.step().phase == Phase::Terminated,
{
    if state.pc < state.code.len() {
        assert(state.code[state.pc].valid(state.code.len() as int));
        match state.code[state.pc] {
            Instruction::Draw { rs, offset } => {
                crate::memory::lemma_draw_keeps_front(
                    state.memory,
                    offset as int,
                    u8::spec_from(state.bank.integers[rs as int]),
                );
            },
            Instruction::SwapFrame => {
                crate::memory::lemma_swap_exchanges_frames(state.memory);
            },
            _ => {},
        }
    }
}

/// No cycle tears the visible frame: after it the host sees the frame that it
/// saw before, or, where the cycle swapped the slots, the whole frame that
/// was the back frame; and only a swap changes which slot is visible.
pub proof fn lemma_step_shows_whole_frame(state: MachineState)
    requires
        state.wf(),
    ensures
        state.step().memory.front_frame() == state.memory.front_frame()
            || state.step().memory.front_frame() == state.memory.back_frame(),
        state.step().memory.front_slot() != state.memory.front_slot() ==> state.pc
            < state.code.len() && state.code[state.pc] == Instruction::SwapFrame,
{
    if state.pc < state.code.len() {
        assert(state.code[state.pc].valid(state.code.len() as int));
        match state.code[state.pc] {
            Instruction::Draw { rs, offset } => {
                crate::memory::lemma_draw_keeps_front(
                    state.memory,
                    offset as int,
                    u8::spec_from(state.bank.integers[rs as int]),
                );
            },
            Instruction::SwapFrame => {
                crate::memory::lemma_swap_exchanges_frames(state.memory);
            },
            _ => {},
        }
    }
}

/// Running keeps a state well formed and keeps its program.
pub proof fn lemma_run_preserves_wf(state: MachineState, cycles: nat)
    requires
        state.wf(),
    ensures
        state.run(cycles).wf(),
        state.run(cycles).code == state.code,
    decreases cycles,
{
    if cycles > 0 && !state.terminated() {
        lemma_step_preserves_wf(state);
        lemma_run_preserves_wf(state.step(), (cycles - 1) as nat);
    }
}

/// A terminated simulator stays as it is, however long it is run.
pub proof fn lemma_terminated_is_final(state: MachineState, cycles: nat)
    requires
        state.terminated(),
    ensures
        state.run(cycles) == state,
{
}

/// No run leads back to the idle phase, and none leads back to the loaded
/// phase once a cycle has run.
pub proof fn lemma_run_never_returns_to_idle(state: MachineState, cycles: nat)
    requires
        state.wf(),
        state.phase != Phase::Idle,
    ensures
        state.run(cycles).phase != Phase::Idle,
        state.phase != Phase::Loaded ==> state.run(cycles).phase != Phase::Loaded,
        state.run(cycles).phase == Phase::Loaded ==> state.run(cycles) == state,
    decreases cycles,
{
    if cycles > 0 && !state.terminated() {
        lemma_step_preserves_wf(state);
        lemma_run_never_returns_to_idle(state.step(), (cycles - 1) as nat);
    }
}

/// Running in two slices is running once for the sum of their lengths.
pub proof fn lemma_run_in_slices(state: MachineState, first: nat, second: nat)
    ensures
        state.run(first).run(second) == state.run(first + second),
    decreases first,
{
    if state.terminated() {
        lemma_terminated_is_final(state, first);
        lemma_terminated_is_final(state, second);
        lemma_terminated_is_final(state, first + second);
    } else if first > 0 {
        lemma_run_in_slices(state.step(), (first - 1) as nat, second);
        assert((first + second - 1) as nat == (first - 1) as nat + second);
    }
}

/// At the end of its program, and at a halt, a simulator that is run for
/// at least one cycle terminates with registers, memory and program counter
/// as they were.
pub proof fn lemma_end_of_program_terminates(state: MachineState, cycles: nat)
    requires
        state.wf(),
        cycles > 0,
        state.pc == state.code.len() || state.code[state.pc] == Instruction::Halt,
    ensures
        state.run(cycles) == (MachineState { phase: Phase::Terminated, ..state }),
{
    if !state.terminated() {
        lemma_terminated_is_final(state.step(), (cycles - 1) as nat);
    }
}

} // verus!
