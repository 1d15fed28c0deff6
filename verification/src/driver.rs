//! The animation driver: runs the fixed schedule against the LED bank.
//!
//! A delay step leaves the bank untouched; the unverified shell is the
//! one that actually blocks on the hardware timer. The driver records the
//! trace of steps it issues, so its contracts can speak of exactly which
//! calls the bank received and in which order.

use vstd::prelude::*;
use crate::led::{LedBank, PinLevel};
use crate::schedule::{cycle, cycles, Step};
use crate::startup::StartMode;

verus! {

/// What one step does to the bank model: delays change nothing.
pub open spec fn step_effect(bank: LedBank, s: Step) -> LedBank {
    match s {
        Step::On(c) => bank.with_level(c, PinLevel::Low),
        Step::Off(c) => bank.with_level(c, PinLevel::High),
        Step::DelayMs(_) => bank,
    }
}

/// The bank after a whole trace of steps, applied left to right.
pub open spec fn trace_effect(bank: LedBank, s: Seq<Step>) -> LedBank
    decreases s.len(),
{
    if s.len() == 0 {
        bank
    } else {
        step_effect(trace_effect(bank, s.drop_last()), s.last())
    }
}

/// Perform one step on the bank model.
pub fn apply_step(bank: &mut LedBank, s: Step)
    ensures
        *final(bank) == step_effect(*old(bank), s),
{
    match s {
        Step::On(c) => bank.on(c),
        Step::Off(c) => bank.off(c),
        Step::DelayMs(_) => (),
    }
}

/// Drive one full cycle: the four `on` calls, the pause, the four `off`
/// calls, the pause, each call followed by its 500 ms delay step. Returns
/// the exact trace of steps issued; the cycle always leaves every LED dark.
pub fn run_cycle(bank: &mut LedBank) -> (trace: Vec<Step>)
    ensures
        trace@ == cycle(),
        *final(bank) == trace_effect(*old(bank), cycle()),
        final(bank).all_extinguished(),
{
    let steps = crate::schedule::cycle_steps();
    let mut trace: Vec<Step> = Vec::new();
    let mut i: usize = 0;
    while i < steps.len()
        invariant
            steps@ == cycle(),
            i <= steps.len(),
            trace@ == cycle().subrange(0, i as int),
            *bank == trace_effect(*old(bank), cycle().subrange(0, i as int)),
        decreases steps.len() - i,
    {
        let s = steps[i];
        apply_step(bank, s);
        trace.push(s);
        proof {
            assert(cycle().subrange(0, i + 1).drop_last() =~= cycle().subrange(0, i as int));
            assert(cycle().subrange(0, i + 1).last() == cycle()[i as int]);
            assert(trace@ =~= cycle().subrange(0, i + 1));
        }
        i = i + 1;
    }
    proof {
        assert(cycle().subrange(0, cycle().len() as int) =~= cycle());
        lemma_cycle_extinguishes(*old(bank));
    }
    trace
}

/// A full cycle leaves every LED dark, whatever the bank held before.
pub proof fn lemma_cycle_extinguishes(bank: LedBank)
    ensures
        trace_effect(bank, cycle()).all_extinguished(),
{
    reveal_with_fuel(trace_effect, 21);
    assert(trace_effect(bank, cycle()).all_extinguished());
}

/// Drive `n` full cycles, returning the complete trace. Zero cycles issue
/// no steps at all and leave the bank exactly as it was.
pub fn run_cycles(bank: &mut LedBank, n: usize) -> (trace: Vec<Step>)
    ensures
        trace@ == cycles(n as nat),
        n == 0 ==> *final(bank) == *old(bank),
        n > 0 ==> final(bank).all_extinguished(),
{
    let mut trace: Vec<Step> = Vec::new();
    let mut k: usize = 0;
    while k < n
        invariant
            k <= n,
            trace@ == cycles(k as nat),
            k == 0 ==> *bank == *old(bank),
            k > 0 ==> bank.all_extinguished(),
        decreases n - k,
    {
        let mut cycle_trace = run_cycle(bank);
        trace.append(&mut cycle_trace);
        k = k + 1;
    }
    trace
}

/// The driver in a given start mode: in `Run` it performs the `n` cycles;
/// in `Idle` it performs zero LED operations and zero delay operations,
/// and the bank is never touched.
pub fn run_cycles_in_mode(bank: &mut LedBank, mode: StartMode, n: usize) -> (trace: Vec<Step>)
    ensures
        mode == StartMode::Run ==> trace@ == cycles(n as nat),
        mode == StartMode::Run && n > 0 ==> final(bank).all_extinguished(),
        mode == StartMode::Run && n == 0 ==> *final(bank) == *old(bank),
        mode == StartMode::Idle ==> trace@ == Seq::<Step>::empty() && *final(bank) == *old(bank),
{
    match mode {
        StartMode::Run => run_cycles(bank, n),
        StartMode::Idle => {
            let trace: Vec<Step> = Vec::new();
            proof {
                assert(trace@ =~= Seq::<Step>::empty());
            }
            trace
        },
    }
}

} // verus!
