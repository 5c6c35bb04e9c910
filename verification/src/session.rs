//! The session: the current simulator together with the rule that decides
//! which run may touch it. Every request to run a program replaces the
//! simulator with a fresh one and hands out a ticket; a run that holds an
//! older ticket finds itself replaced and changes nothing.

use vstd::prelude::*;
use crate::error::{LoadError, ParseError};
use crate::layout::{DATA_SIZE, FRAME_SIZE};
use crate::program::{valid_code, Instruction, ProgramImage};
use crate::simulator::{refused_with, MachineState, Phase, Simulator};

verus! {

/// The mathematical content of a session.
pub struct SessionModel {
    /// The state of the current simulator.
    pub machine: MachineState,
    /// The number of runs requested so far: the ticket of the latest one.
    pub generation: nat,
}

impl SessionModel {
    /// The current simulator is well formed.
    pub open spec fn wf(self) -> bool {
        self.machine.wf()
    }

    /// The session before any request: an idle simulator and no ticket out.
    pub open spec fn fresh() -> SessionModel {
        SessionModel { machine: MachineState::idle(), generation: 0 }
    }

    /// The session after a run was requested: a fresh simulator, whatever
    /// the old one held, and the next ticket.
    pub open spec fn restarted(self) -> SessionModel {
        SessionModel { machine: MachineState::idle(), generation: self.generation + 1 }
    }

    /// The session after the holder of `ticket` installed a program: only
    /// the latest ticket installs anything.
    pub open spec fn installed(
        self,
        ticket: nat,
        code: Seq<Instruction>,
        data: Seq<u8>,
    ) -> SessionModel {
        if ticket == self.generation {
            SessionModel { machine: MachineState::idle().loaded(code, data), ..self }
        } else {
            self
        }
    }

    /// The session after the holder of `ticket` ran for at most `cycles`
    /// cycles: only the latest ticket runs, and only once a program is
    /// loaded.
    pub open spec fn advanced(self, ticket: nat, cycles: nat) -> SessionModel {
        if ticket == self.generation && self.machine.phase != Phase::Idle {
            SessionModel { machine: self.machine.run(cycles), ..self }
        } else {
            self
        }
    }

    /// What the holder of `ticket` is told after it asked to run.
    pub open spec fn progress(self, ticket: nat, cycles: nat) -> Progress {
        if ticket != self.generation {
            Progress::Replaced
        } else if self.advanced(ticket, cycles).machine.phase == Phase::Running
            || self.advanced(ticket, cycles).machine.phase == Phase::Loaded {
            Progress::Running
        } else {
            Progress::Ended
        }
    }
}

/// What became of a program that a run wanted to install.
#[derive(Clone, Copy, Debug, PartialEq, Eq, Structural)]
pub enum Admission {
    /// A later request has replaced this run: nothing was installed.
    Replaced,
    /// The program is installed in the current simulator.
    Loaded,
    /// The program was refused: nothing was installed.
    Failed(LoadError),
}

/// How far a run has come.
#[derive(Clone, Copy, Debug, PartialEq, Eq, Structural)]
pub enum Progress {
    /// A later request has replaced this run: nothing was executed.
    Replaced,
    /// The program has not ended.
    Running,
    /// There is nothing left to run: the program has ended, or none is
    /// loaded.
    Ended,
}

/// Whether `outcome` and the session `after` are what comes of the holder
/// of `ticket` installing `parsed` in the session `before`.
pub open spec fn installs_as(
    before: SessionModel,
    ticket: nat,
    parsed: Result<ProgramImage, ParseError>,
    outcome: Admission,
    after: SessionModel,
) -> bool {
    if ticket != before.generation {
        outcome == Admission::Replaced && after == before
    } else {
        match parsed {
            Err(error) => outcome == Admission::Failed(LoadError::Parse(error)) && after == before,
            Ok(image) => match outcome {
                Admission::Replaced => false,
                Admission::Loaded => {
                    &&& valid_code(image.code@)
                    &&& image.data@.len() <= DATA_SIZE
                    &&& after == before.installed(ticket, image.code@, image.data@)
                },
                Admission::Failed(error) => {
                    &&& refused_with(image.code@, image.data@, error)
                    &&& after == before
                },
            },
        }
    }
}

/// The current simulator and the ticket of the run that owns it.
pub struct State {
    simulator: Simulator,
    generation: u64,
}

impl View for State {
    type V = SessionModel;

    closed spec fn view(&self) -> SessionModel {
        SessionModel { machine: self.simulator@, generation: self.generation as nat }
    }
}

impl State {
    /// The invariant of the session: see [`SessionModel::wf`].
    pub open spec fn wf(&self) -> bool {
        self@.wf()
    }

    /// A session with an idle simulator.
    pub fn new() -> (state: State)
        ensures
            state.wf(),
            state@ == SessionModel::fresh(),
    {
        State { simulator: Simulator::new(), generation: 0 }
    }

    /// The ticket of the latest run.
    pub fn generation(&self) -> (ticket: u64)
        ensures
            ticket == self@.generation,
    {
        self.generation
    }

    /// The current simulator.
    pub fn simulator(&self) -> (simulator: &Simulator)
        ensures
            simulator@ == self@.machine,
    {
        &self.simulator
    }

    /// Starts a new run: discards the current simulator, installs a fresh
    /// one, and hands out the ticket that the run must show from now on.
    pub fn request_run(&mut self) -> (ticket: u64)
        requires
            old(self).wf(),
            old(self)@.generation < u64::MAX,
        ensures
            final(self).wf(),
            final(self)@ == old(self)@.restarted(),
            ticket == final(self)@.generation,
    {
        self.simulator = Simulator::new();
        self.generation = self.generation + 1;
        self.generation
    }

    /// Installs the outcome of parsing for the run that holds `ticket`. A
    /// run that was replaced installs nothing. A parse error, and a program
    /// that the simulator refuses, leave the session as it was. Otherwise
    /// the current simulator is a fresh one with the program loaded.
    pub fn install(
        &mut self,
        ticket: u64,
        parsed: Result<ProgramImage, ParseError>,
    ) -> (outcome: Admission)
        requires
            old(self).wf(),
        ensures
            final(self).wf(),
            installs_as(old(self)@, ticket as nat, parsed, outcome, final(self)@),
    {
        if ticket != self.generation {
            return Admission::Replaced;
        }
        match Simulator::new().load_parsed(parsed) {
            Ok(simulator) => {
                self.simulator = simulator;
                Admission::Loaded
            },
            Err(error) => Admission::Failed(error),
        }
    }

    /// Runs the current program for at most `cycles` cycles on behalf of the
    /// run that holds `ticket`. A run that was replaced executes nothing.
    pub fn advance(&mut self, ticket: u64, cycles: u64) -> (progress: Progress)
        requires
            old(self).wf(),
        ensures
            final(self).wf(),
            final(self)@ == old(self)@.advanced(ticket as nat, cycles as nat),
            progress == old(self)@.progress(ticket as nat, cycles as nat),
    {
        if ticket != self.generation {
            return Progress::Replaced;
        }
        match self.simulator.phase() {
            Phase::Idle => Progress::Ended,
            _ => {
                proof {
                    crate::simulator::lemma_run_never_returns_to_idle(
                        self.simulator@,
                        cycles as nat,
                    );
                }
                if self.simulator.run_for(cycles) {
                    Progress::Ended
                } else {
                    Progress::Running
                }
            },
        }
    }

    /// A copy of the frame that is visible now: the front frame of whichever
    /// simulator is installed.
    pub fn request_frame(&self) -> (frame: Vec<u8>)
        requires
            self.wf(),
        ensures
            frame@ == self@.machine.memory.front_frame(),
            frame@.len() == FRAME_SIZE,
    {
        self.simulator.memory().read_frame()
    }
}

/// A run that was replaced cannot interfere: once a new run is requested,
/// the simulator is fresh, and whatever the holder of an earlier ticket
/// installs or runs leaves the session as it is.
pub proof fn lemma_replaced_run_changes_nothing(
    session: SessionModel,
    ticket: nat,
    code: Seq<Instruction>,
    data: Seq<u8>,
    cycles: nat,
)
    requires
        ticket <= session.generation,
    ensures
        session.restarted().machine == MachineState::idle(),
        session.restarted().installed(ticket, code, data) == session.restarted(),
        session.restarted().advanced(ticket, cycles) == session.restarted(),
        session.restarted().progress(ticket, cycles) == Progress::Replaced,
{
}

/// Whatever is requested, installed or run, the session stays well formed,
/// so that a frame can be read between any two of these.
pub proof fn lemma_session_stays_wf(
    session: SessionModel,
    ticket: nat,
    code: Seq<Instruction>,
    data: Seq<u8>,
    cycles: nat,
)
    requires
        session.wf(),
    ensures
        session.restarted().wf(),
        session.advanced(ticket, cycles).wf(),
        valid_code(code) && data.len() <= DATA_SIZE ==> session.installed(ticket, code, data).wf(),
{
    crate::simulator::lemma_run_preserves_wf(session.machine, cycles);
    crate::memory::lemma_zeroed_shows_blank_frame();
    assert(MachineState::idle().wf());
}

} // verus!
