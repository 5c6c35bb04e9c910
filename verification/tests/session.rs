use fpgrars::error::{LoadError, ParseError};
use fpgrars::program::{Instruction, ProgramImage};
use fpgrars::session::{Admission, Progress, State};
use fpgrars::simulator::Phase;

fn painter(value: u32) -> ProgramImage {
    // Draws `value` at pixel 0, shows it, then loops forever.
    ProgramImage {
        code: vec![
            Instruction::LoadImmediate { rd: 1, value },
            Instruction::Draw { rs: 1, offset: 0 },
            Instruction::SwapFrame,
            Instruction::Jump { target: 3 },
        ],
        data: Vec::new(),
    }
}

#[test]
fn fresh_session_shows_a_blank_frame() {
    let state = State::new();
    assert_eq!(state.generation(), 0);
    assert_eq!(state.simulator().phase(), Phase::Idle);
    let frame = state.request_frame();
    assert_eq!(frame.len(), 320 * 240);
    assert!(frame.iter().all(|&byte| byte == 0));
}

#[test]
fn empty_program_runs_to_its_end_at_once() {
    let mut state = State::new();
    let ticket = state.request_run();
    assert_eq!(ticket, 1);
    let empty = ProgramImage { code: Vec::new(), data: Vec::new() };
    assert_eq!(state.install(ticket, Ok(empty)), Admission::Loaded);
    assert_eq!(state.simulator().phase(), Phase::Loaded);
    assert_eq!(state.advance(ticket, 4096), Progress::Ended);
    assert_eq!(state.simulator().phase(), Phase::Terminated);
    let frame = state.request_frame();
    assert_eq!(frame.len(), 320 * 240);
    assert!(frame.iter().all(|&byte| byte == 0));
}

#[test]
fn second_run_replaces_the_first() {
    let mut state = State::new();
    let first = state.request_run();
    assert_eq!(state.install(first, Ok(painter(7))), Admission::Loaded);
    assert_eq!(state.advance(first, 100), Progress::Running);
    assert_eq!(state.request_frame()[0], 7);

    let second = state.request_run();
    assert_eq!(second, first + 1);
    // The new simulator is fresh: nothing of the first run is left.
    assert_eq!(state.simulator().phase(), Phase::Idle);
    assert_eq!(state.simulator().register_bank().get_register::<u32>(1), 0);
    let between = state.request_frame();
    assert_eq!(between.len(), 320 * 240);
    assert!(between.iter().all(|&byte| byte == 0));

    // The first run finds itself replaced and changes nothing.
    assert_eq!(state.advance(first, 100), Progress::Replaced);
    assert_eq!(state.install(first, Ok(painter(9))), Admission::Replaced);
    assert_eq!(state.simulator().phase(), Phase::Idle);
    assert!(state.request_frame().iter().all(|&byte| byte == 0));

    assert_eq!(state.install(second, Ok(painter(5))), Admission::Loaded);
    assert_eq!(state.advance(second, 2), Progress::Running);
    assert!(state.request_frame().iter().all(|&byte| byte == 0));
    assert_eq!(state.advance(second, 1), Progress::Running);
    assert_eq!(state.request_frame()[0], 5);
    assert_eq!(state.advance(first, 1), Progress::Replaced);
    assert_eq!(state.request_frame()[0], 5);
}

#[test]
fn refused_programs_leave_the_session_idle() {
    let mut state = State::new();
    let ticket = state.request_run();
    let error = ParseError::UnknownOpcode { location: 4 };
    assert_eq!(state.install(ticket, Err(error)), Admission::Failed(LoadError::Parse(error)));
    assert_eq!(state.simulator().phase(), Phase::Idle);
    let big = ProgramImage { code: Vec::new(), data: vec![0u8; 200] };
    assert_eq!(state.install(ticket, Ok(big)), Admission::Failed(LoadError::CapacityExceeded));
    let bad = ProgramImage { code: vec![Instruction::Jump { target: 2 }], data: Vec::new() };
    assert_eq!(
        state.install(ticket, Ok(bad)),
        Admission::Failed(LoadError::Parse(ParseError::BadOperand { location: 0 }))
    );
    assert_eq!(state.simulator().phase(), Phase::Idle);
    // With nothing loaded there is nothing to run.
    assert_eq!(state.advance(ticket, 10), Progress::Ended);
    assert_eq!(state.simulator().phase(), Phase::Idle);
    assert_eq!(state.generation(), ticket);
}

#[test]
fn a_ticket_from_the_future_is_not_honoured() {
    let mut state = State::new();
    assert_eq!(state.advance(1, 10), Progress::Replaced);
    assert_eq!(state.install(1, Ok(painter(1))), Admission::Replaced);
    assert_eq!(state.simulator().phase(), Phase::Idle);
    assert_eq!(state.generation(), 0);
}

#[test]
fn a_halting_program_ends_within_its_slice() {
    let mut state = State::new();
    let ticket = state.request_run();
    let image = ProgramImage {
        code: vec![Instruction::LoadImmediate { rd: 2, value: 8 }, Instruction::Halt],
        data: vec![1, 2, 3],
    };
    assert_eq!(state.install(ticket, Ok(image)), Admission::Loaded);
    assert_eq!(state.advance(ticket, 0), Progress::Running);
    assert_eq!(state.advance(ticket, 1), Progress::Running);
    assert_eq!(state.advance(ticket, 1), Progress::Ended);
    assert_eq!(state.advance(ticket, 1), Progress::Ended);
    assert_eq!(state.simulator().register_bank().get_register::<u32>(2), 8);
    assert_eq!(state.simulator().memory().read_data(2), 3);
    assert_eq!(state.simulator().memory().read_data(3), 0);
}
