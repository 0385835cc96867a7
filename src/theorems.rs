//! What holds of every run of the tape automaton.
use vstd::prelude::*;
use crate::machine::{MachineView, State, TAPE_LEN, next, outcome, seeded, steps, steps_to_halt};

verus! {

/// A symbol of the automaton's alphabet.
pub open spec fn is_bit(s: u8) -> bool {
    s == 0 || s == 1
}

/// The symbol at index `i` of the alternating sequence of bits that starts
/// with `s`.
pub open spec fn alternating(s: u8, i: int) -> u8 {
    if i % 2 == 0 {
        s
    } else {
        (1 - s) as u8
    }
}

/// A step keeps the tape's length and never moves the head left; a running
/// automaton whose head stays put has halted.
proof fn lemma_next_wf(v: MachineView)
    requires
        v.wf(),
    ensures
        next(v).wf(),
        next(v).position >= v.position,
        v.state is Running && next(v).position == v.position ==> next(v).state is Halted,
{
}

/// Running to completion from a running automaton is running to completion
/// from the automaton one step later.
proof fn lemma_outcome_unfold(v: MachineView)
    requires
        v.wf(),
        v.state is Running,
    ensures
        outcome(v) == outcome(next(v)),
        steps_to_halt(v) == 1 + steps_to_halt(next(v)),
{
}

/// Once halted, an automaton is left unchanged by any number of further steps.
pub proof fn lemma_halted_is_fixed(v: MachineView, n: nat)
    requires
        v.state is Halted,
    ensures
        steps(v, n) == v,
    decreases n,
{
    if n > 0 {
        lemma_halted_is_fixed(v, (n - 1) as nat);
    }
}

/// A well-formed automaton halts after at most as many steps as there are
/// cells from its head to the end of the tape, so after at most the tape's
/// length; it is running before each of those steps and halted after them.
pub proof fn lemma_halts_within_tape(v: MachineView)
    requires
        v.wf(),
    ensures
        steps_to_halt(v) <= v.tape.len() - v.position,
        steps_to_halt(v) <= v.tape.len(),
        outcome(v).state is Halted,
        outcome(v).wf(),
        forall|j: nat| j < steps_to_halt(v) ==> (#[trigger] steps(v, j)).state is Running,
    decreases v.tape.len() - v.position,
{
    if v.state is Running {
        let w = next(v);
        lemma_next_wf(v);
        lemma_outcome_unfold(v);
        if w.state is Running {
            lemma_halts_within_tape(w);
        }
        assert forall|j: nat| j < steps_to_halt(v) implies (#[trigger] steps(v, j)).state is Running by {
            if j > 0 {
                assert(steps(v, j) == steps(w, (j - 1) as nat));
            }
        }
    }
}

/// When the symbol under the head of a running automaton is not a bit, the
/// automaton halts at once with that symbol and the tape is left untouched.
pub proof fn lemma_abort_on_unknown_symbol(v: MachineView)
    requires
        v.wf(),
        v.state is Running,
        !is_bit(v.tape[v.position as int]),
    ensures
        steps_to_halt(v) == 1,
        outcome(v).tape == v.tape,
        outcome(v).state == State::Halted(v.tape[v.position as int]),
{
    lemma_outcome_unfold(v);
    assert(steps(next(v), 0) == next(v));
}

/// When the symbol under the head of a running automaton is a bit, every cell
/// from the head to the end of the tape ends up a bit that differs from the
/// cell before it, the cells up to the head are kept, and the automaton halts
/// on the last cell with the symbol written there.
pub proof fn lemma_alternation(v: MachineView)
    requires
        v.wf(),
        v.state is Running,
        is_bit(v.tape[v.position as int]),
    ensures
        outcome(v).tape.len() == v.tape.len(),
        forall|i: int|
            v.position < i < v.tape.len() ==> {
                &&& #[trigger] outcome(v).tape[i] != outcome(v).tape[i - 1]
                &&& is_bit(outcome(v).tape[i])
            },
        forall|i: int| 0 <= i <= v.position ==> #[trigger] outcome(v).tape[i] == v.tape[i],
        outcome(v).position == v.tape.len() - 1,
        outcome(v).state == State::Halted(outcome(v).tape[v.tape.len() - 1]),
    decreases v.tape.len() - v.position,
{
    let w = next(v);
    lemma_outcome_unfold(v);
    if v.position + 1 < v.tape.len() {
        assert(w.tape[w.position as int] != v.tape[v.position as int]);
        lemma_alternation(w);
    } else {
        assert(steps(w, 0) == w);
    }
}

/// A fresh automaton whose first cell holds a bit writes the alternating
/// sequence that starts with it over the whole tape, and halts with the
/// symbol in the last cell.
pub proof fn lemma_alternation_from_seed(s: u8)
    requires
        is_bit(s),
    ensures
        forall|i: int|
            0 <= i < TAPE_LEN ==> #[trigger] outcome(seeded(s)).tape[i] == alternating(s, i),
        outcome(seeded(s)).tape.len() == TAPE_LEN,
        outcome(seeded(s)).state == State::Halted(outcome(seeded(s)).tape[TAPE_LEN - 1]),
{
    let v = seeded(s);
    lemma_alternation(v);
    let r = outcome(v);
    assert forall|i: int| 0 <= i < TAPE_LEN implies #[trigger] r.tape[i] == alternating(s, i) by {
        lemma_alternating_cell(r.tape, s, i);
    }
}

/// In a sequence of bits that starts with `s` and where each element differs
/// from the one before it, the elements at even indices are `s` and the others
/// the other bit.
proof fn lemma_alternating_cell(t: Seq<u8>, s: u8, i: int)
    requires
        is_bit(s),
        0 <= i < t.len(),
        t[0] == s,
        forall|k: int| 0 < k < t.len() ==> #[trigger] t[k] != t[k - 1] && is_bit(t[k]),
    ensures
        t[i] == alternating(s, i),
    decreases i,
{
    if i > 0 {
        lemma_alternating_cell(t, s, i - 1);
    }
}

} // verus!
