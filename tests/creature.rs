use creature_sim::creature::{CreatureState, TickSignals};

fn signals(depleted: bool, overtired: bool, fed: bool) -> TickSignals {
    TickSignals { depleted, overtired, fed }
}

#[test]
fn depletion_kills_from_every_state() {
    for s in [CreatureState::Awake, CreatureState::Asleep, CreatureState::Eating, CreatureState::Dead] {
        assert_eq!(s.next(signals(true, true, true)), CreatureState::Dead);
    }
}

#[test]
fn dead_stays_dead() {
    let mut s = CreatureState::Awake;
    let ticks = [
        signals(false, false, false),
        signals(true, false, false),
        signals(false, true, false),
        signals(false, false, true),
    ];
    let mut seen = Vec::new();
    for t in ticks {
        s = s.next(t);
        seen.push(s);
    }
    assert_eq!(seen, vec![CreatureState::Awake, CreatureState::Dead, CreatureState::Dead, CreatureState::Dead]);
    assert!(s.is_dead());
}

#[test]
fn sleepiness_below_threshold_keeps_awake() {
    let sleepiness: f64 = 99.0 + 5.0 * 0.1;
    assert!((sleepiness - 99.5).abs() < 1e-9);
    let s = CreatureState::Awake.next(signals(false, sleepiness > 100.0, false));
    assert_eq!(s, CreatureState::Awake);
    assert!(!s.is_recovering());
}

#[test]
fn sleepiness_above_threshold_falls_asleep() {
    let sleepiness: f64 = 99.0 + 15.0 * 0.1;
    assert!((sleepiness - 100.5).abs() < 1e-9);
    let s = CreatureState::Awake.next(signals(false, sleepiness > 100.0, false));
    assert_eq!(s, CreatureState::Asleep);
    assert!(s.is_recovering());
}

#[test]
fn overtired_overrides_eating() {
    assert_eq!(CreatureState::Eating.next(signals(false, true, true)), CreatureState::Asleep);
}

#[test]
fn fed_eater_wakes_up() {
    assert_eq!(CreatureState::Eating.next(signals(false, false, true)), CreatureState::Awake);
    assert_eq!(CreatureState::Eating.next(signals(false, false, false)), CreatureState::Eating);
    assert_eq!(CreatureState::Asleep.next(signals(false, false, true)), CreatureState::Asleep);
    assert_eq!(CreatureState::Awake.next(signals(false, false, true)), CreatureState::Awake);
}
