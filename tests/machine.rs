use tape_automaton::machine::{State, TuringMachine, TAPE_LEN};

#[test]
fn ch6_exercises_binary_string_starting_on_0_is_ok() {
    let mut machine = TuringMachine::new();
    machine.run();

    let expected_tape = vec![0, 1, 0, 1, 0, 1, 0, 1, 0, 1];
    assert_eq!(*machine.tape(), expected_tape);
}

#[test]
fn ch6_exercises_binary_string_starting_on_1_is_ok() {
    let mut machine = TuringMachine::new();
    machine.seed(1);
    machine.run();

    let expected_tape = vec![1, 0, 1, 0, 1, 0, 1, 0, 1, 0];
    assert_eq!(*machine.tape(), expected_tape);
}

#[test]
fn ch6_exercises_machine_aborts_on_unknown_tape_symbol() {
    let mut machine = TuringMachine::new();
    machine.seed(2);
    machine.run();
    assert_eq!(machine.state(), State::Halted(2));
}

#[test]
fn ch6_exercises_sol_binary_string_starting_on_0_is_ok() {
    let mut machine = TuringMachine::new();
    machine.run();

    let expected_tape = vec![0, 1, 0, 1, 0, 1, 0, 1, 0, 1];
    assert_eq!(*machine.tape(), expected_tape);
}

#[test]
fn ch6_exercises_sol_binary_string_starting_on_1_is_ok() {
    let mut machine = TuringMachine::new();
    machine.seed(1);
    machine.run();

    let expected_tape = vec![1, 0, 1, 0, 1, 0, 1, 0, 1, 0];
    assert_eq!(*machine.tape(), expected_tape);
}

#[test]
fn ch6_exercises_sol_machine_aborts_on_unknown_tape_symbol() {
    let mut machine = TuringMachine::new();
    machine.seed(2);
    machine.run();
    assert_eq!(machine.state(), State::Halted(2));
}

#[test]
fn fresh_machine_is_running_on_zeros() {
    let machine = TuringMachine::new();
    assert_eq!(machine.state(), State::Running);
    assert_eq!(machine.position(), 0);
    assert_eq!(*machine.tape(), vec![0u8; TAPE_LEN]);
}

#[test]
fn run_from_zero_halts_with_one() {
    let mut machine = TuringMachine::new();
    machine.run();
    assert_eq!(machine.state(), State::Halted(1));
    assert_eq!(machine.position(), TAPE_LEN - 1);
}

#[test]
fn run_from_one_halts_with_zero() {
    let mut machine = TuringMachine::new();
    machine.seed(1);
    machine.run();
    assert_eq!(machine.state(), State::Halted(0));
}

#[test]
fn abort_leaves_rest_of_tape_untouched() {
    let mut machine = TuringMachine::new();
    machine.seed(2);
    machine.run();
    assert_eq!(*machine.tape(), vec![2, 0, 0, 0, 0, 0, 0, 0, 0, 0]);
    assert_eq!(machine.position(), 1);
}

#[test]
fn abort_reports_largest_symbol() {
    let mut machine = TuringMachine::new();
    machine.seed(255);
    machine.run();
    assert_eq!(machine.state(), State::Halted(255));
    assert_eq!(machine.tape()[0], 255);
    assert!(machine.tape()[1..].iter().all(|&s| s == 0));
}

#[test]
fn single_step_writes_flipped_bit() {
    let mut machine = TuringMachine::new();
    machine.step();
    assert_eq!(machine.state(), State::Running);
    assert_eq!(machine.position(), 1);
    assert_eq!(*machine.tape(), vec![0, 1, 0, 0, 0, 0, 0, 0, 0, 0]);
}

#[test]
fn unknown_symbol_step_halts_without_writing() {
    let mut machine = TuringMachine::new();
    machine.seed(7);
    machine.step();
    assert_eq!(machine.state(), State::Halted(7));
    assert_eq!(machine.position(), 1);
    assert_eq!(*machine.tape(), vec![7, 0, 0, 0, 0, 0, 0, 0, 0, 0]);
}

#[test]
fn halted_machine_ignores_further_steps() {
    for seed in [0u8, 1, 2, 200] {
        let mut machine = TuringMachine::new();
        machine.seed(seed);
        machine.run();
        let state = machine.state();
        let tape = machine.tape().clone();
        let position = machine.position();
        for _ in 0..25 {
            machine.step();
            assert_eq!(machine.state(), state);
            assert_eq!(*machine.tape(), tape);
            assert_eq!(machine.position(), position);
        }
    }
}

#[test]
fn halts_within_tape_length_steps() {
    for seed in 0u8..=255 {
        let mut machine = TuringMachine::new();
        machine.seed(seed);
        let mut count: usize = 0;
        while machine.state() == State::Running {
            machine.step();
            count += 1;
            assert!(count <= TAPE_LEN);
        }
        let expected: usize = if seed <= 1 { TAPE_LEN } else { 1 };
        assert_eq!(count, expected);
    }
}

#[test]
fn successful_runs_alternate() {
    for seed in [0u8, 1] {
        let mut machine = TuringMachine::new();
        machine.seed(seed);
        machine.run();
        let tape = machine.tape();
        for i in 1..TAPE_LEN {
            assert_ne!(tape[i], tape[i - 1]);
            assert!(tape[i] == 0 || tape[i] == 1);
        }
        assert_eq!(machine.state(), State::Halted(tape[TAPE_LEN - 1]));
    }
}
