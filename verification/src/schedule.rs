//! The animation driver's schedule: one fixed, repeating cycle of steps.
//!
//! The driver has no input and no exit condition. Each cycle turns the
//! four LEDs on one after the other, pauses, turns them off in the same
//! order, and pauses again; every step is separated from the next by a
//! blocking 500 ms delay. The extra pause between the phases is two
//! consecutive 500 ms delays: a workaround for the limited resolution of
//! the timer, kept as part of the fixed schedule.

use vstd::prelude::*;
use crate::led::LedColor;

verus! {

/// One action of the animation driver: drive an LED on or off, or block
/// for the given number of milliseconds.
#[derive(Clone, Copy, PartialEq, Eq, Structural, Debug)]
pub enum Step {
    On(LedColor),
    Off(LedColor),
    DelayMs(u16),
}

/// Every delay the driver ever issues is this long.
pub const STEP_DELAY_MS: u16 = 500;

/// The number of steps in one full cycle.
pub const CYCLE_LEN: usize = 20;

/// A step is a call into the LED bank (rather than a delay).
pub open spec fn is_led_call(s: Step) -> bool {
    !(s is DelayMs)
}

/// The twenty steps of one full cycle.
pub open spec fn cycle() -> Seq<Step> {
    seq![
        Step::On(LedColor::Orange),
        Step::DelayMs(500),
        Step::On(LedColor::Red),
        Step::DelayMs(500),
        Step::On(LedColor::Blue),
        Step::DelayMs(500),
        Step::On(LedColor::Green),
        Step::DelayMs(500),
        Step::DelayMs(500),
        Step::DelayMs(500),
        Step::Off(LedColor::Orange),
        Step::DelayMs(500),
        Step::Off(LedColor::Red),
        Step::DelayMs(500),
        Step::Off(LedColor::Blue),
        Step::DelayMs(500),
        Step::Off(LedColor::Green),
        Step::DelayMs(500),
        Step::DelayMs(500),
        Step::DelayMs(500),
    ]
}

/// The trace of `n` full cycles: `n` copies of the cycle, one after the other.
pub open spec fn cycles(n: nat) -> Seq<Step>
    decreases n,
{
    if n == 0 {
        Seq::empty()
    } else {
        cycles((n - 1) as nat) + cycle()
    }
}

/// One full cycle as an executable step list.
pub fn cycle_steps() -> (steps: Vec<Step>)
    ensures
        steps@ == cycle(),
{
    let mut steps: Vec<Step> = Vec::new();
    steps.push(Step::On(LedColor::Orange));
    steps.push(Step::DelayMs(STEP_DELAY_MS));
    steps.push(Step::On(LedColor::Red));
    steps.push(Step::DelayMs(STEP_DELAY_MS));
    steps.push(Step::On(LedColor::Blue));
    steps.push(Step::DelayMs(STEP_DELAY_MS));
    steps.push(Step::On(LedColor::Green));
    steps.push(Step::DelayMs(STEP_DELAY_MS));
    steps.push(Step::DelayMs(STEP_DELAY_MS));
    steps.push(Step::DelayMs(STEP_DELAY_MS));
    steps.push(Step::Off(LedColor::Orange));
    steps.push(Step::DelayMs(STEP_DELAY_MS));
    steps.push(Step::Off(LedColor::Red));
    steps.push(Step::DelayMs(STEP_DELAY_MS));
    steps.push(Step::Off(LedColor::Blue));
    steps.push(Step::DelayMs(STEP_DELAY_MS));
    steps.push(Step::Off(LedColor::Green));
    steps.push(Step::DelayMs(STEP_DELAY_MS));
    steps.push(Step::DelayMs(STEP_DELAY_MS));
    steps.push(Step::DelayMs(STEP_DELAY_MS));
    proof {
        assert(steps@ =~= cycle());
    }
    steps
}

/// The step the driver takes at position `pos` of the cycle.
pub fn step_at(pos: usize) -> (s: Step)
    requires
        pos < CYCLE_LEN,
    ensures
        s == cycle()[pos as int],
{
    if pos == 0 {
        Step::On(LedColor::Orange)
    } else if pos == 2 {
        Step::On(LedColor::Red)
    } else if pos == 4 {
        Step::On(LedColor::Blue)
    } else if pos == 6 {
        Step::On(LedColor::Green)
    } else if pos == 10 {
        Step::Off(LedColor::Orange)
    } else if pos == 12 {
        Step::Off(LedColor::Red)
    } else if pos == 14 {
        Step::Off(LedColor::Blue)
    } else if pos == 16 {
        Step::Off(LedColor::Green)
    } else {
        Step::DelayMs(STEP_DELAY_MS)
    }
}

/// The position following `pos`, wrapping at the end of the cycle.
pub open spec fn next_pos(pos: int) -> int {
    if pos + 1 == CYCLE_LEN {
        0
    } else {
        pos + 1
    }
}

/// Advance the driver to the next position. The schedule wraps around:
/// there is no position from which the driver cannot advance, so the
/// animation has no exit condition.
pub fn advance(pos: usize) -> (next: usize)
    requires
        pos < CYCLE_LEN,
    ensures
        next < CYCLE_LEN,
        next == next_pos(pos as int),
{
    if pos + 1 == CYCLE_LEN {
        0
    } else {
        pos + 1
    }
}

/// The position reached from `pos` after `k` steps of the schedule.
pub open spec fn pos_after(pos: int, k: nat) -> int
    decreases k,
{
    if k == 0 {
        pos
    } else {
        pos_after(next_pos(pos), (k - 1) as nat)
    }
}

/// The schedule is a single closed loop: from any position, exactly one
/// full cycle of steps returns the driver to that same position. The
/// sequence therefore repeats forever and can only be restarted from the
/// outside, never ended from within.
pub proof fn lemma_schedule_is_a_cycle(pos: int)
    requires
        0 <= pos < CYCLE_LEN,
    ensures
        pos_after(pos, CYCLE_LEN as nat) == pos,
        forall|k: nat| 0 <= #[trigger] pos_after(pos, k) < CYCLE_LEN,
{
    assert(pos_after(pos, CYCLE_LEN as nat) == pos) by {
        reveal_with_fuel(pos_after, 21);
    }
    assert forall|k: nat| 0 <= #[trigger] pos_after(pos, k) < CYCLE_LEN by {
        lemma_pos_after_in_range(pos, k);
    }
}

/// Every position the schedule can ever reach is a valid cycle position.
proof fn lemma_pos_after_in_range(pos: int, k: nat)
    requires
        0 <= pos < CYCLE_LEN,
    ensures
        0 <= pos_after(pos, k) < CYCLE_LEN,
    decreases k,
{
    if k > 0 {
        lemma_pos_after_in_range(next_pos(pos), (k - 1) as nat);
    }
}

/// The bank calls of a step trace: the delays removed, the order kept.
pub open spec fn led_calls(s: Seq<Step>) -> Seq<Step>
    decreases s.len(),
{
    if s.len() == 0 {
        Seq::empty()
    } else if s.last() is DelayMs {
        led_calls(s.drop_last())
    } else {
        led_calls(s.drop_last()).push(s.last())
    }
}

/// The eight bank calls of one cycle: the four `on` calls, then the four
/// `off` calls, each phase in the fixed chase order.
pub open spec fn cycle_led_calls() -> Seq<Step> {
    seq![
        Step::On(LedColor::Orange),
        Step::On(LedColor::Red),
        Step::On(LedColor::Blue),
        Step::On(LedColor::Green),
        Step::Off(LedColor::Orange),
        Step::Off(LedColor::Red),
        Step::Off(LedColor::Blue),
        Step::Off(LedColor::Green),
    ]
}

/// The bank calls of `n` cycles: `n` copies of the eight calls of one cycle.
pub open spec fn repeated_led_calls(n: nat) -> Seq<Step>
    decreases n,
{
    if n == 0 {
        Seq::empty()
    } else {
        repeated_led_calls((n - 1) as nat) + cycle_led_calls()
    }
}

/// Removing the delays distributes over splicing two traces together.
pub proof fn lemma_led_calls_concat(a: Seq<Step>, b: Seq<Step>)
    ensures
        led_calls(a + b) == led_calls(a) + led_calls(b),
    decreases b.len(),
{
    if b.len() == 0 {
        assert(a + b =~= a);
        assert(led_calls(b) =~= Seq::<Step>::empty());
        assert(led_calls(a) + led_calls(b) =~= led_calls(a));
    } else {
        lemma_led_calls_concat(a, b.drop_last());
        assert((a + b).drop_last() =~= a + b.drop_last());
        assert((a + b).last() == b.last());
        if !(b.last() is DelayMs) {
            assert(led_calls(a) + led_calls(b.drop_last()).push(b.last()) =~= (led_calls(a)
                + led_calls(b.drop_last())).push(b.last()));
        }
    }
}

/// One cycle makes exactly the eight bank calls, in the fixed order,
/// the `on` phase complete before the `off` phase begins.
pub proof fn lemma_cycle_led_calls()
    ensures
        led_calls(cycle()) == cycle_led_calls(),
{
    reveal_with_fuel(led_calls, 21);
    assert(led_calls(cycle()) =~= cycle_led_calls());
}

/// Over `n` full cycles the LED bank receives exactly four `on` calls
/// followed by exactly four `off` calls per cycle, always in the fixed
/// chase order, with no interleaving between cycles or phases.
pub proof fn lemma_trace_led_calls(n: nat)
    ensures
        led_calls(cycles(n)) == repeated_led_calls(n),
    decreases n,
{
    if n == 0 {
        assert(led_calls(cycles(0)) =~= Seq::<Step>::empty());
    } else {
        lemma_trace_led_calls((n - 1) as nat);
        lemma_led_calls_concat(cycles((n - 1) as nat), cycle());
        lemma_cycle_led_calls();
    }
}

/// Within one cycle, a bank call never stands last and is always followed
/// immediately by a 500 ms delay.
pub proof fn lemma_cycle_calls_followed_by_delay()
    ensures
        forall|j: int|
            0 <= j < cycle().len() && is_led_call(#[trigger] cycle()[j]) ==> j + 1 < cycle().len()
                && cycle()[j + 1] == Step::DelayMs(500),
{
}

/// Every bank call in the trace of `n` cycles is immediately followed by
/// a 500 ms blocking delay before anything else happens.
pub proof fn lemma_call_followed_by_delay(n: nat)
    ensures
        forall|i: int|
            0 <= i < cycles(n).len() && is_led_call(#[trigger] cycles(n)[i]) ==> i + 1 < cycles(
                n,
            ).len() && cycles(n)[i + 1] == Step::DelayMs(500),
    decreases n,
{
    if n > 0 {
        lemma_call_followed_by_delay((n - 1) as nat);
        lemma_cycle_calls_followed_by_delay();
        let prev = cycles((n - 1) as nat);
        let t = cycles(n);
        assert forall|i: int|
            0 <= i < t.len() && is_led_call(t[i]) implies i + 1 < t.len() && t[i + 1]
            == Step::DelayMs(500) by {
            if i < prev.len() {
                assert(t[i] == prev[i]);
                assert(is_led_call(prev[i]));
                assert(i + 1 < prev.len() && prev[i + 1] == Step::DelayMs(500));
                assert(t[i + 1] == prev[i + 1]);
            } else {
                let j = i - prev.len();
                assert(t[i] == cycle()[j]);
                assert(j + 1 < cycle().len() && cycle()[j + 1] == Step::DelayMs(500));
                assert(t[i + 1] == cycle()[j + 1]);
            }
        }
    }
}

/// The transition between the `on` phase and the `off` phase, and the wrap
/// back to the next cycle's `on` phase, are each a 1000 ms block: two
/// consecutive 500 ms delays beyond the one that follows the last call.
pub proof fn lemma_phase_transition_delays()
    ensures
        cycle()[6] == Step::On(LedColor::Green),
        cycle()[7] == Step::DelayMs(500),
        cycle()[8] == Step::DelayMs(500),
        cycle()[9] == Step::DelayMs(500),
        cycle()[10] == Step::Off(LedColor::Orange),
        cycle()[16] == Step::Off(LedColor::Green),
        cycle()[17] == Step::DelayMs(500),
        cycle()[18] == Step::DelayMs(500),
        cycle()[19] == Step::DelayMs(500),
{
}

} // verus!
