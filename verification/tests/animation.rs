use led_chase::driver::{apply_step, run_cycle, run_cycles, run_cycles_in_mode};
use led_chase::led::{LedBank, LedColor, PinLevel};
use led_chase::schedule::{advance, cycle_steps, step_at, Step, CYCLE_LEN, STEP_DELAY_MS};
use led_chase::startup::StartMode;

const CHASE_ORDER: [LedColor; 4] = [LedColor::Orange, LedColor::Red, LedColor::Blue, LedColor::Green];

#[test]
fn cycle_has_twenty_steps() {
    let steps = cycle_steps();
    assert_eq!(steps.len(), CYCLE_LEN);
    assert_eq!(steps.len(), 20);
}

#[test]
fn cycle_led_calls_are_four_on_then_four_off_in_order() {
    let steps = cycle_steps();
    let calls: Vec<Step> = steps
        .iter()
        .copied()
        .filter(|s| !matches!(s, Step::DelayMs(_)))
        .collect();
    assert_eq!(calls.len(), 8);
    for (i, color) in CHASE_ORDER.iter().enumerate() {
        assert_eq!(calls[i], Step::On(*color));
        assert_eq!(calls[i + 4], Step::Off(*color));
    }
}

#[test]
fn every_led_call_is_followed_by_a_500ms_delay() {
    let steps = cycle_steps();
    for i in 0..steps.len() {
        if !matches!(steps[i], Step::DelayMs(_)) {
            assert!(i + 1 < steps.len());
            assert_eq!(steps[i + 1], Step::DelayMs(500));
        }
    }
}

#[test]
fn phase_transitions_are_two_consecutive_500ms_delays() {
    let steps = cycle_steps();
    assert_eq!(steps[6], Step::On(LedColor::Green));
    assert_eq!(steps[7], Step::DelayMs(500));
    assert_eq!(steps[8], Step::DelayMs(500));
    assert_eq!(steps[9], Step::DelayMs(500));
    assert_eq!(steps[10], Step::Off(LedColor::Orange));
    assert_eq!(steps[16], Step::Off(LedColor::Green));
    assert_eq!(steps[17], Step::DelayMs(500));
    assert_eq!(steps[18], Step::DelayMs(500));
    assert_eq!(steps[19], Step::DelayMs(500));
}

#[test]
fn every_delay_is_500ms() {
    assert_eq!(STEP_DELAY_MS, 500);
    for s in cycle_steps() {
        if let Step::DelayMs(ms) = s {
            assert_eq!(ms, 500);
        }
    }
}

#[test]
fn step_at_matches_the_cycle() {
    let steps = cycle_steps();
    for (i, s) in steps.iter().enumerate() {
        assert_eq!(step_at(i), *s);
    }
}

#[test]
fn advance_wraps_and_never_leaves_the_cycle() {
    assert_eq!(advance(19), 0);
    let mut pos: usize = 0;
    for _ in 0..CYCLE_LEN {
        pos = advance(pos);
        assert!(pos < CYCLE_LEN);
    }
    assert_eq!(pos, 0);
    // From any start, one full cycle of steps returns to the start.
    for start in 0..CYCLE_LEN {
        let mut p = start;
        for _ in 0..CYCLE_LEN {
            p = advance(p);
        }
        assert_eq!(p, start);
    }
}

#[test]
fn new_bank_is_dark() {
    let bank = LedBank::new();
    for c in CHASE_ORDER {
        assert!(!bank.is_lit(c));
        assert_eq!(bank.level(c), PinLevel::High);
    }
}

#[test]
fn on_and_off_touch_only_their_color() {
    let mut bank = LedBank::new();
    bank.on(LedColor::Blue);
    assert!(bank.is_lit(LedColor::Blue));
    assert!(!bank.is_lit(LedColor::Orange));
    assert!(!bank.is_lit(LedColor::Red));
    assert!(!bank.is_lit(LedColor::Green));
    bank.on(LedColor::Red);
    assert!(bank.is_lit(LedColor::Blue));
    assert!(bank.is_lit(LedColor::Red));
    bank.off(LedColor::Blue);
    assert!(!bank.is_lit(LedColor::Blue));
    assert!(bank.is_lit(LedColor::Red));
}

#[test]
fn leds_are_active_low() {
    let mut bank = LedBank::new();
    bank.on(LedColor::Orange);
    assert_eq!(bank.level(LedColor::Orange), PinLevel::Low);
    bank.off(LedColor::Orange);
    assert_eq!(bank.level(LedColor::Orange), PinLevel::High);
}

#[test]
fn apply_step_ignores_delays() {
    let mut bank = LedBank::new();
    bank.on(LedColor::Green);
    apply_step(&mut bank, Step::DelayMs(500));
    assert!(bank.is_lit(LedColor::Green));
    apply_step(&mut bank, Step::Off(LedColor::Green));
    assert!(!bank.is_lit(LedColor::Green));
    apply_step(&mut bank, Step::On(LedColor::Red));
    assert!(bank.is_lit(LedColor::Red));
}

#[test]
fn one_cycle_issues_the_cycle_trace_and_leaves_the_bank_dark() {
    let mut bank = LedBank::new();
    bank.on(LedColor::Orange);
    let trace = run_cycle(&mut bank);
    assert_eq!(trace, cycle_steps());
    for c in CHASE_ORDER {
        assert!(!bank.is_lit(c));
    }
}

#[test]
fn n_cycles_issue_n_copies_of_the_cycle() {
    let mut bank = LedBank::new();
    let trace = run_cycles(&mut bank, 3);
    let one = cycle_steps();
    assert_eq!(trace.len(), 60);
    for (i, s) in trace.iter().enumerate() {
        assert_eq!(*s, one[i % 20]);
    }
}

#[test]
fn zero_cycles_issue_nothing() {
    let mut bank = LedBank::new();
    bank.on(LedColor::Blue);
    let trace = run_cycles(&mut bank, 0);
    assert!(trace.is_empty());
    assert!(bank.is_lit(LedColor::Blue));
}

#[test]
fn idle_mode_performs_zero_led_and_delay_operations() {
    let mut bank = LedBank::new();
    bank.on(LedColor::Red);
    let trace = run_cycles_in_mode(&mut bank, StartMode::Idle, 5);
    assert!(trace.is_empty());
    assert!(bank.is_lit(LedColor::Red));
    assert!(!bank.is_lit(LedColor::Orange));
}

#[test]
fn run_mode_performs_the_cycles() {
    let mut bank = LedBank::new();
    let trace = run_cycles_in_mode(&mut bank, StartMode::Run, 2);
    assert_eq!(trace.len(), 40);
    let one = cycle_steps();
    assert_eq!(&trace[..20], &one[..]);
    assert_eq!(&trace[20..], &one[..]);
}
