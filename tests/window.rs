use net_tracer::sample::{Outcome, Sample};
use net_tracer::window::{SampleWindow, WINDOW_MS};

fn lost(t: u64) -> Sample {
    Sample { timestamp: t, outcome: Outcome::Lost }
}

fn ok(t: u64, ms: u32) -> Sample {
    Sample { timestamp: t, outcome: Outcome::Latency(ms) }
}

fn recount(w: &SampleWindow) -> usize {
    let mut n = 0;
    for i in 0..w.size() {
        if w.get(i).outcome == Outcome::Lost {
            n += 1;
        }
    }
    n
}

#[test]
fn new_window_is_empty() {
    let w = SampleWindow::new();
    assert_eq!(w.size(), 0);
    assert_eq!(w.loss_count(), 0);
}

#[test]
fn entry_exactly_at_window_edge_is_kept() {
    let mut w = SampleWindow::new();
    w.insert(lost(0));
    w.insert(ok(10_000, 20));
    w.insert(ok(WINDOW_MS, 20));
    assert_eq!(w.size(), 3);
    assert_eq!(w.get(0), lost(0));
    assert_eq!(w.loss_count(), 1);
}

#[test]
fn entry_older_than_window_is_evicted() {
    let mut w = SampleWindow::new();
    w.insert(lost(0));
    w.insert(ok(10_000, 20));
    w.insert(ok(WINDOW_MS + 1, 20));
    assert_eq!(w.size(), 2);
    assert_eq!(w.get(0), ok(10_000, 20));
    assert_eq!(w.loss_count(), 0);
}

#[test]
fn one_insert_can_evict_several_entries() {
    let mut w = SampleWindow::new();
    w.insert(lost(0));
    w.insert(lost(1_000));
    w.insert(ok(2_000, 5));
    w.insert(lost(40_000));
    assert_eq!(w.size(), 1);
    assert_eq!(w.get(0), lost(40_000));
    assert_eq!(w.loss_count(), 1);
}

#[test]
fn equal_timestamps_are_all_kept() {
    let mut w = SampleWindow::new();
    w.insert(lost(500));
    w.insert(lost(500));
    w.insert(ok(500, 1));
    assert_eq!(w.size(), 3);
    assert_eq!(w.loss_count(), 2);
}

#[test]
fn window_stays_time_bounded_and_count_exact() {
    let mut w = SampleWindow::new();
    let mut t: u64 = 0;
    for i in 0..400u64 {
        let s = if i % 3 == 0 || i % 7 == 0 { lost(t) } else { ok(t, (i % 200) as u32) };
        w.insert(s);
        for j in 0..w.size() {
            assert!(t - w.get(j).timestamp <= WINDOW_MS);
        }
        assert_eq!(w.get(w.size() - 1), s);
        assert_eq!(w.loss_count(), recount(&w));
        t += 250 + (i % 5) * 100;
    }
}

#[test]
fn loss_percentage_rounds_down() {
    let mut w = SampleWindow::new();
    w.insert(lost(0));
    w.insert(ok(1, 10));
    w.insert(ok(2, 10));
    assert_eq!(w.loss_percentage(), 33);
}

#[test]
fn loss_percentage_extremes() {
    let mut w = SampleWindow::new();
    w.insert(ok(0, 10));
    assert_eq!(w.loss_percentage(), 0);
    let mut v = SampleWindow::new();
    v.insert(lost(0));
    v.insert(lost(1));
    assert_eq!(v.loss_percentage(), 100);
}
