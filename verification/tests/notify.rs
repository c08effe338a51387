use rproc::monitor::notify::{Thresholds, Watcher, DEFAULT_COOLDOWN_SECS, MIN_COOLDOWN_SECS};

const SEC: u64 = 1_000_000_000;

#[test]
fn default_thresholds_are_disabled() {
    let t = Thresholds::default();
    assert_eq!((t.cpu_pct, t.ram_pct, t.cooldown_secs), (0, 0, 300));
    assert_eq!(DEFAULT_COOLDOWN_SECS, 300);
    assert_eq!(MIN_COOLDOWN_SECS, 30);
}

#[test]
fn first_breach_fires_then_cooldown_applies() {
    let t = Thresholds { cpu_pct: 90, ram_pct: 0, cooldown_secs: 300 };
    let mut w = Watcher::new(t, 5 * SEC);
    let a = w.check(t, true, true, 6 * SEC);
    assert_eq!((a.cpu, a.ram), (Some(90), None));
    let a = w.check(t, true, true, 100 * SEC);
    assert_eq!(a.cpu, None);
    let a = w.check(t, true, true, 306 * SEC - 1);
    assert_eq!(a.cpu, None);
    let a = w.check(t, true, true, 306 * SEC);
    assert_eq!(a.cpu, Some(90));
    let a = w.check(t, false, false, 2000 * SEC);
    assert_eq!(a.cpu, None);
}

#[test]
fn metrics_are_independent() {
    let t = Thresholds { cpu_pct: 80, ram_pct: 70, cooldown_secs: 30 };
    let mut w = Watcher::new(t, 0);
    assert_eq!(w.check(t, true, false, SEC).cpu, Some(80));
    let a = w.check(t, true, true, 2 * SEC);
    assert_eq!((a.cpu, a.ram), (None, Some(70)));
    let later = Thresholds { cpu_pct: 50, ram_pct: 70, cooldown_secs: 30 };
    let a = w.check(later, true, true, 31 * SEC);
    assert_eq!((a.cpu, a.ram), (Some(50), None));
    assert_eq!(w.current_thresholds(), later);
}

#[test]
fn zero_cooldown_fires_every_time() {
    let t = Thresholds { cpu_pct: 10, ram_pct: 10, cooldown_secs: 0 };
    let mut w = Watcher::new(t, 0);
    for i in 0..3 {
        let a = w.check(t, true, true, i * SEC);
        assert_eq!((a.cpu, a.ram), (Some(10), Some(10)));
    }
}
