use grohuh::trigger::{Decision, State, Thresholds, SOC_TRIGGER_HIGH, SOC_TRIGGER_LOW};

/// Runs the trigger over the readings; `fails` lists the readings at which
/// the action fails. Returns the readings at which the action was invoked and
/// the state at the end.
fn run(t: &Thresholds, start: State, socs: &[Option<i64>], fails: &[usize]) -> (Vec<usize>, State) {
    let mut state = start;
    let mut invoked = Vec::new();
    for (i, soc) in socs.iter().enumerate() {
        let decision = state.decide(t, *soc);
        if let Decision::Fire(_) = decision {
            invoked.push(i);
        }
        state = state.settle(decision, !fails.contains(&i));
    }
    (invoked, state)
}

#[test]
fn idle_trigger_fires_at_the_high_threshold() {
    let t = Thresholds::standard();
    let s = State::default();
    assert_eq!(s.decide(&t, Some(90)), Decision::Fire(90));
    assert_eq!(s.decide(&t, Some(89)), Decision::Hold);
    assert_eq!(s.decide(&t, Some(i64::MAX)), Decision::Fire(i64::MAX));
    assert_eq!(s.decide(&t, Some(i64::MIN)), Decision::Hold);
}

#[test]
fn standard_thresholds_are_ninety_over_eighty() {
    let t = Thresholds::standard();
    assert_eq!(t, Thresholds { high: 90, low: 80 });
    assert_eq!(SOC_TRIGGER_HIGH, 90);
    assert_eq!(SOC_TRIGGER_LOW, 80);
}

#[test]
fn thresholds_need_a_band() {
    assert_eq!(Thresholds::new(90, 80), Some(Thresholds { high: 90, low: 80 }));
    assert_eq!(Thresholds::new(81, 80), Some(Thresholds { high: 81, low: 80 }));
    assert_eq!(Thresholds::new(80, 80), None);
    assert_eq!(Thresholds::new(80, 90), None);
    assert_eq!(Thresholds::new(i64::MIN, i64::MAX), None);
}

#[test]
fn default_state_is_unset_and_not_triggered() {
    let s = State::default();
    assert_eq!(s.triggered, None);
    assert!(!s.triggered());
    assert!(!State { triggered: Some(false) }.triggered());
    assert!(State { triggered: Some(true) }.triggered());
}

#[test]
fn fired_trigger_is_released_below_the_low_threshold() {
    let t = Thresholds::standard();
    let s = State { triggered: Some(true) };
    assert_eq!(s.decide(&t, Some(79)), Decision::Release);
    assert_eq!(s.decide(&t, Some(80)), Decision::Hold);
    assert_eq!(s.decide(&t, Some(95)), Decision::Hold);
    assert_eq!(s.settle(Decision::Release, true), State { triggered: Some(false) });
    assert_eq!(s.settle(Decision::Release, false), State { triggered: Some(false) });
}

#[test]
fn reading_without_soc_holds() {
    let t = Thresholds::standard();
    assert_eq!(State::default().decide(&t, None), Decision::Hold);
    assert_eq!(State { triggered: Some(true) }.decide(&t, None), Decision::Hold);
    assert_eq!(State::default().settle(Decision::Hold, true), State::default());
}

#[test]
fn unset_state_stays_unset_until_a_transition() {
    let t = Thresholds::standard();
    let (invoked, state) = run(&t, State::default(), &[Some(50), None, Some(85)], &[]);
    assert!(invoked.is_empty());
    assert_eq!(state.triggered, None);
}

#[test]
fn hysteresis_sequence_fires_at_one_and_five() {
    let t = Thresholds::new(90, 80).unwrap();
    let socs = [Some(85), Some(90), Some(95), Some(82), Some(79), Some(91)];
    let (invoked, state) = run(&t, State::default(), &socs, &[]);
    assert_eq!(invoked, vec![1, 5]);
    assert_eq!(state, State { triggered: Some(true) });
}

#[test]
fn hysteresis_sequence_states_step_by_step() {
    let t = Thresholds::standard();
    let mut s = State::default();
    let expected = [None, Some(true), Some(true), Some(true), Some(false), Some(true)];
    let socs = [85, 90, 95, 82, 79, 91];
    for i in 0..6 {
        let d = s.decide(&t, Some(socs[i]));
        s = s.settle(d, true);
        assert_eq!(s.triggered, expected[i]);
    }
}

#[test]
fn run_of_high_readings_fires_once() {
    let t = Thresholds::standard();
    let socs: Vec<Option<i64>> = (0..50).map(|i| Some(90 + (i % 11))).collect();
    let (invoked, state) = run(&t, State::default(), &socs, &[]);
    assert_eq!(invoked, vec![0]);
    assert!(state.triggered());
}

#[test]
fn failed_action_leaves_idle_and_is_retried() {
    let t = Thresholds::standard();
    let s = State::default();
    let d = s.decide(&t, Some(93));
    assert_eq!(d, Decision::Fire(93));
    let after = s.settle(d, false);
    assert_eq!(after, s);
    assert_eq!(after.decide(&t, Some(91)), Decision::Fire(91));
    let (invoked, state) = run(&t, s, &[Some(93), Some(91), Some(99), Some(92)], &[0, 1]);
    assert_eq!(invoked, vec![0, 1, 2]);
    assert_eq!(state, State { triggered: Some(true) });
}

#[test]
fn failed_action_keeps_a_released_state_released() {
    let t = Thresholds::standard();
    let s = State { triggered: Some(false) };
    assert_eq!(s.settle(s.decide(&t, Some(90)), false), State { triggered: Some(false) });
}

#[test]
fn custom_band_is_honoured() {
    let t = Thresholds::new(10, -10).unwrap();
    let (invoked, state) = run(&t, State::default(), &[Some(9), Some(10), Some(-10), Some(-11), Some(10)], &[]);
    assert_eq!(invoked, vec![1, 4]);
    assert!(state.triggered());
}
