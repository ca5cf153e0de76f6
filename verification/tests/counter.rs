use rustwebapp::counter::VisitCounter;

#[test]
fn first_call_returns_one() {
    let mut c = VisitCounter::new();
    assert_eq!(c.increment_and_get(), 1);
}

#[test]
fn successive_calls_strictly_increase() {
    let mut c = VisitCounter::new();
    let mut prev: u64 = 0;
    for _ in 0..1000 {
        let v = c.increment_and_get();
        assert!(v > prev);
        prev = v;
    }
}

#[test]
fn run_of_n_calls_returns_exactly_one_to_n() {
    let n: usize = 500;
    let mut c = VisitCounter::new();
    let mut returned: Vec<u64> = Vec::new();
    for _ in 0..n {
        returned.push(c.increment_and_get());
    }
    let mut seen = vec![false; n + 1];
    for v in &returned {
        let v = *v as usize;
        assert!(1 <= v && v <= n, "value out of range: {}", v);
        assert!(!seen[v], "value returned twice: {}", v);
        seen[v] = true;
    }
    for v in 1..=n {
        assert!(seen[v], "value never returned: {}", v);
    }
}

#[test]
fn independent_counters_do_not_share_state() {
    let mut a = VisitCounter::new();
    let mut b = VisitCounter::new();
    assert_eq!(a.increment_and_get(), 1);
    assert_eq!(a.increment_and_get(), 2);
    assert_eq!(b.increment_and_get(), 1);
}
