use net_tracer::gate::{AlertGate, COOLDOWN_MS};

#[test]
fn new_gate_is_eligible_from_start() {
    let g = AlertGate::new(5_000);
    assert_eq!(g.next_eligible_at(), 5_000);
    assert!(!g.is_eligible(4_999));
    assert!(g.is_eligible(5_000));
    assert!(g.is_eligible(6_000));
}

#[test]
fn fire_starts_a_cooldown() {
    let mut g = AlertGate::new(0);
    g.fire(1_000);
    assert_eq!(g.next_eligible_at(), 1_000 + COOLDOWN_MS);
    assert_eq!(g.next_eligible_at(), 31_000);
    assert!(!g.is_eligible(1_000));
    assert!(!g.is_eligible(30_999));
    assert!(g.is_eligible(31_000));
    assert!(g.is_eligible(100_000));
}

#[test]
fn fire_while_cooling_down_restarts_the_cooldown() {
    let mut g = AlertGate::new(0);
    g.fire(0);
    g.fire(10_000);
    assert_eq!(g.next_eligible_at(), 40_000);
    assert!(!g.is_eligible(30_000));
}
