//! A tape automaton that reads one cell, moves its head one cell to the
//! right and writes there the other bit, until it runs off the tape or
//! meets a symbol other than 0 and 1.
use vstd::prelude::*;

verus! {

/// The number of cells on the tape of a fresh automaton.
pub const TAPE_LEN: usize = 10;

/// The control state of the automaton.
#[derive(Debug, Clone, Copy, PartialEq, Eq, Structural)]
pub enum State {
    /// The automaton may still advance.
    Running,
    /// Terminal: the symbol observed where the automaton stopped.
    Halted(u8),
}

/// The abstract value of an automaton: its tape, head position and state.
pub struct MachineView {
    pub tape: Seq<u8>,
    pub position: nat,
    pub state: State,
}

impl MachineView {
    /// The tape has its fixed length and the head stands on it.
    pub open spec fn wf(self) -> bool {
        &&& self.tape.len() == TAPE_LEN
        &&& self.position < self.tape.len()
    }
}

/// A fresh tape of zeros, with `seed` in its first cell.
pub open spec fn seeded_tape(seed: u8) -> Seq<u8> {
    Seq::new(TAPE_LEN as nat, |i: int| 0u8).update(0, seed)
}

/// A fresh automaton whose first cell holds `seed`.
pub open spec fn seeded(seed: u8) -> MachineView {
    MachineView { tape: seeded_tape(seed), position: 0, state: State::Running }
}

/// The symbol in cell `p`, or 0 where there is no such cell.
pub open spec fn symbol_at(tape: Seq<u8>, p: nat) -> u8 {
    if p < tape.len() {
        tape[p as int]
    } else {
        0
    }
}

/// Moves the head one cell right; at the last cell, halts instead with the
/// symbol found there.
pub open spec fn advance(v: MachineView) -> MachineView {
    if v.position + 1 < v.tape.len() {
        MachineView { position: v.position + 1, ..v }
    } else {
        MachineView { state: State::Halted(symbol_at(v.tape, v.position)), ..v }
    }
}

/// One step: a halted automaton stays as it is; a running one reads the cell
/// under the head, advances, and, if still running, writes the other bit at
/// the new position, or halts with the symbol read if it was not a bit.
pub open spec fn next(v: MachineView) -> MachineView {
    match v.state {
        State::Halted(_) => v,
        State::Running => {
            let current = symbol_at(v.tape, v.position);
            let moved = advance(v);
            if moved.state is Halted {
                moved
            } else if current == 0 {
                MachineView { tape: moved.tape.update(moved.position as int, 1), ..moved }
            } else if current == 1 {
                MachineView { tape: moved.tape.update(moved.position as int, 0), ..moved }
            } else {
                MachineView { state: State::Halted(current), ..moved }
            }
        },
    }
}

/// The automaton after `n` steps.
pub open spec fn steps(v: MachineView, n: nat) -> MachineView
    decreases n,
{
    if n == 0 {
        v
    } else {
        steps(next(v), (n - 1) as nat)
    }
}

/// The number of steps a running automaton takes until it halts.
pub open spec fn steps_to_halt(v: MachineView) -> nat
    decreases
            v.tape.len() - v.position,
            if v.state is Running {
                1int
            } else {
                0int
            },
{
    if v.state is Running && v.position < v.tape.len() {
        1 + steps_to_halt(next(v))
    } else {
        0
    }
}

/// What running the automaton to completion leaves.
pub open spec fn outcome(v: MachineView) -> MachineView {
    steps(v, steps_to_halt(v))
}

/// A tape automaton over a fixed-length tape of symbols.
pub struct TuringMachine {
    tape: Vec<u8>,
    position: usize,
    state: State,
}

impl View for TuringMachine {
    type V = MachineView;

    closed spec fn view(&self) -> MachineView {
        MachineView { tape: self.tape@, position: self.position as nat, state: self.state }
    }
}

impl TuringMachine {
    #[verifier::type_invariant]
    spec fn inv(&self) -> bool {
        &&& self.tape.len() == TAPE_LEN
        &&& self.position < self.tape.len()
    }

    /// A running automaton with its head on the first cell of a tape of
    /// `TAPE_LEN` zeros.
    pub fn new() -> (m: Self)
        ensures
            m@ == seeded(0),
    {
        let m = TuringMachine { tape: vec![0; TAPE_LEN], position: 0, state: State::Running };
        assert(m.tape@ =~= seeded_tape(0));
        m
    }

    /// Writes `symbol` into the first cell.
    pub fn seed(&mut self, symbol: u8)
        ensures
            final(self)@ == (MachineView { tape: old(self)@.tape.update(0, symbol), ..old(self)@ }),
            final(self)@.wf(),
    {
        proof {
            use_type_invariant(&*self);
        }
        self.tape[0] = symbol;
    }

    /// The symbols on the tape.
    pub fn tape(&self) -> (r: &Vec<u8>)
        ensures
            r@ == self@.tape,
            self@.wf(),
    {
        proof {
            use_type_invariant(self);
        }
        &self.tape
    }

    /// The current control state.
    pub fn state(&self) -> (r: State)
        ensures
            r == self@.state,
            self@.wf(),
    {
        proof {
            use_type_invariant(self);
        }
        self.state
    }

    /// The position of the head.
    pub fn position(&self) -> (r: usize)
        ensures
            r == self@.position,
            self@.wf(),
    {
        proof {
            use_type_invariant(self);
        }
        self.position
    }

    fn move_head_right(&mut self)
        ensures
            final(self)@ == advance(old(self)@),
    {
        proof {
            use_type_invariant(&*self);
        }
        if self.position < self.tape.len() - 1 {
            self.position += 1;
        } else {
            let value_at_halt = self.tape[self.position];
            self.state = State::Halted(value_at_halt);
        }
    }

    /// Advances the automaton by one step; a halted automaton is left as it is.
    pub fn step(&mut self)
        ensures
            final(self)@ == next(old(self)@),
            final(self)@.wf(),
    {
        proof {
            use_type_invariant(&*self);
        }
        if let State::Running = self.state {
            let current_value = match self.tape.as_slice().get(self.position) {
                Some(v) => *v,
                None => 0,
            };
            self.move_head_right();
            proof {
                use_type_invariant(&*self);
            }
            match self.state {
                State::Running => {
                    match current_value {
                        0 => self.tape[self.position] = 1,
                        1 => self.tape[self.position] = 0,
                        _ => self.state = State::Halted(current_value),
                    }
                },
                State::Halted(_) => {},
            }
        }
    }

    /// Steps the automaton until it halts.
    pub fn run(&mut self)
        ensures
            final(self)@ == outcome(old(self)@),
            final(self)@.state is Halted,
            final(self)@.wf(),
    {
        proof {
            use_type_invariant(&*self);
        }
        let ghost start = self@;
        while matches!(self.state, State::Running)
            invariant
                self@.wf(),
                outcome(self@) == outcome(start),
            decreases steps_to_halt(self@),
        {
            proof {
                let v = self@;
                assert(steps(v, steps_to_halt(v)) == steps(next(v), steps_to_halt(next(v))));
            }
            self.step();
            proof {
                use_type_invariant(&*self);
            }
        }
    }
}

} // verus!
