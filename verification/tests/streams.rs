//! Whole streams, scored with the cores and with counters kept beside them.

use midas::normal_core::NormalCore;
use midas::relational_midas::{NodeCounts, RelationalCore, RelationalScore};
use midas::score::Score;
use std::collections::HashMap;
use std::hash::Hash;

/// A counter that counts exactly, with its parameters checked as a sketch
/// would check them.
struct Counter<T: Hash + Eq + Copy> {
    counts: HashMap<T, u64>,
}

impl<T: Hash + Eq + Copy> Counter<T> {
    fn new_with_probs(tol: f64, p_err: f64, capacity: usize) -> Counter<T> {
        assert!(tol > 0.);
        assert!(p_err > 0. && p_err < 1.);
        assert!(capacity > 0);
        Counter { counts: HashMap::with_capacity(capacity) }
    }

    fn new_from(other: &Counter<T>) -> Counter<T> {
        Counter { counts: HashMap::with_capacity(other.counts.capacity()) }
    }

    fn insert(&mut self, item: T) -> u64 {
        let count = self.counts.entry(item).or_insert(0);
        *count += 1;
        *count
    }

    fn clear(&mut self) {
        self.counts.clear();
    }
}

fn value(score: Score) -> f64 {
    let excess = score.excess as f64;
    excess * excess / score.spread as f64
}

fn mean(score: RelationalScore) -> f64 {
    (value(score.source) + value(score.dest) + value(score.combined)) / 3.
}

/// A univariate scorer with its two counters.
struct Normal<T: Hash + Eq + Copy> {
    core: NormalCore,
    current: Counter<T>,
    all: Counter<T>,
}

impl<T: Hash + Eq + Copy> Normal<T> {
    fn new(tol: f64, p_err: f64, capacity: usize) -> Normal<T> {
        let current = Counter::new_with_probs(tol, p_err, capacity);
        let all = Counter::new_from(&current);
        Normal { core: NormalCore::new(), current, all }
    }

    fn exact(&mut self, item: T, time: u64) -> Score {
        if self.core.rolls_over(time) {
            self.current.clear();
        }
        let a = self.current.insert(item);
        let s = self.all.insert(item);
        self.core.update(a, s, time)
    }

    fn update(&mut self, item: T, time: u64) -> f64 {
        value(self.exact(item, time))
    }
}

/// A relational scorer with its six counters.
struct Relational<T: Hash + Eq + Copy> {
    core: RelationalCore,
    current: (Counter<T>, Counter<T>, Counter<(T, T)>),
    all: (Counter<T>, Counter<T>, Counter<(T, T)>),
}

impl<T: Hash + Eq + Copy> Relational<T> {
    fn new(tol: f64, p_err: f64, capacity: usize) -> Relational<T> {
        let current = (
            Counter::new_with_probs(tol, p_err, capacity),
            Counter::new_with_probs(tol, p_err, capacity),
            Counter::new_with_probs(tol, p_err, capacity),
        );
        let all = (
            Counter::new_from(&current.0),
            Counter::new_from(&current.1),
            Counter::new_from(&current.2),
        );
        Relational { core: RelationalCore::new(), current, all }
    }

    fn exact(&mut self, item: (T, T), time: u64) -> RelationalScore {
        if self.core.rolls_over(time) {
            self.current.0.clear();
            self.current.1.clear();
            self.current.2.clear();
        }
        let a = NodeCounts {
            source: self.current.0.insert(item.0),
            dest: self.current.1.insert(item.1),
            combined: self.current.2.insert(item),
        };
        let s = NodeCounts {
            source: self.all.0.insert(item.0),
            dest: self.all.1.insert(item.1),
            combined: self.all.2.insert(item),
        };
        self.core.update(a, s, time)
    }

    fn update(&mut self, item: (T, T), time: u64) -> f64 {
        mean(self.exact(item, time))
    }
}

#[test]
fn lib_new_event_anomaly() {
    let mut midas: Normal<(u64, u64)> = Normal::new(0.1, 0.001, 100);
    let mut max = 0.;
    for i in 0..1_000 {
        for _ in 1..10 {
            max = midas.update((10, 10), i).max(max);
        }
    }
    let anom = midas.update((11, 10), 3);
    println!("anom is {} and norm is {}", anom, max);
    assert!(anom > max);
}

#[test]
fn lib_one_extra_anomaly() {
    let mut midas: Normal<(u64, u64)> = Normal::new(0.1, 0.001, 100);
    let mut max = 0.;
    for i in 0..1_000 {
        for _ in 0..10 {
            max = midas.update((10, 10), i).max(max);
        }
    }
    let mut max_more = 0.;
    for _ in 0..11 {
        max_more = midas.update((10, 10), 1_000).max(max_more);
    }
    println!("cluster scored a {} and normal scored {}", max_more, max);
    assert!(max_more > max);
}

#[test]
fn lib_extra_vs_new_anomaly() {
    let mut midas: Normal<(u64, u64)> = Normal::new(0.1, 0.001, 100);
    for i in 0..1_000 {
        for _ in 0..10 {
            midas.update((10, 10), i);
        }
    }
    let mut max_more = 0.;
    for _ in 0..11 {
        max_more = midas.update((10, 10), 1_000).max(max_more);
    }
    let anom = midas.update((11, 10), 3);

    println!("cluster scored a {} and unique scored {}", max_more, anom);
    assert!(max_more < anom);
}

#[test]
fn normal_core_new_event_anomaly() {
    let mut midas: Normal<(u64, u64)> = Normal::new(0.1, 0.001, 100);
    let mut max = 0.;
    for i in 0..1_000 {
        for _ in 1..10 {
            max = midas.update((10, 10), i).max(max);
        }
    }
    let anom = midas.update((11, 10), 3);
    println!("anom is {} and norm is {}", anom, max);
    assert!(anom > max);
}

#[test]
fn normal_core_one_extra_anomaly() {
    let mut midas: Normal<(u64, u64)> = Normal::new(0.1, 0.001, 100);
    let mut max = 0.;
    for i in 0..1_000 {
        for _ in 0..10 {
            max = midas.update((10, 10), i).max(max);
        }
    }
    let mut max_more = 0.;
    for _ in 0..11 {
        max_more = midas.update((10, 10), 1_000).max(max_more);
    }
    println!("cluster scored a {} and normal scored {}", max_more, max);
    assert!(max_more > max);
}

#[test]
fn normal_core_extra_vs_new_anomaly() {
    let mut midas: Normal<(u64, u64)> = Normal::new(0.1, 0.001, 100);
    for i in 0..1_000 {
        for _ in 0..10 {
            midas.update((10, 10), i);
        }
    }
    let mut max_more = 0.;
    for _ in 0..11 {
        max_more = midas.update((10, 10), 1_000).max(max_more);
    }
    let anom = midas.update((11, 10), 3);

    println!("cluster scored a {} and unique scored {}", max_more, anom);
    assert!(max_more < anom);
}

#[test]
fn relational_midas_new_event_anomaly() {
    let mut midas: Relational<u64> = Relational::new(0.1, 0.001, 1_000);
    let mut max = 0.;
    for i in 0..100 {
        for s in 1..100 {
            for d in 11..200 {
                max = midas.update((s, d), i).max(max);
            }
        }
    }

    let anom = midas.update((250, 300), 3);
    println!("anom is {} and norm is {}", anom, max);
    assert!(anom > max);
}

#[test]
fn steady_key_never_signals() {
    let mut midas: Normal<(u64, u64)> = Normal::new(0.1, 0.001, 100);
    for i in 0..1_000 {
        for _ in 0..10 {
            assert!(midas.exact((10, 10), i).is_zero());
        }
    }
    assert_eq!(midas.core.tick(), 999);
}

#[test]
fn burst_after_steady_history_has_its_exact_score() {
    let mut midas: Normal<(u64, u64)> = Normal::new(0.1, 0.001, 100);
    for i in 0..1_000 {
        for _ in 0..10 {
            midas.exact((10, 10), i);
        }
    }
    for _ in 0..10 {
        assert!(midas.exact((10, 10), 1_000).is_zero());
    }
    // The eleventh sight: 11 in the tick and 10_011 in all, at tick 1_000.
    let burst = midas.exact((10, 10), 1_000);
    assert_eq!(burst, Score { excess: 989, spread: 10_000_989 });
    // A new key at an earlier time falls into the current tick.
    let unique = midas.exact((11, 10), 3);
    assert_eq!(unique, Score { excess: 2, spread: 2 });
    assert_eq!(midas.core.tick(), 1_000);
    assert!(value(unique) > value(burst));
}

#[test]
fn rollover_resets_the_tick_counts_and_keeps_the_stream_counts() {
    let mut midas: Normal<u64> = Normal::new(0.1, 0.001, 100);
    for _ in 0..3 {
        assert!(midas.exact(7, 0).is_zero());
    }
    // 1 in the new tick, 4 in all, at tick 5.
    assert_eq!(midas.exact(7, 5), Score { excess: 1, spread: 16 });
    // An earlier time does not roll the window back: 2 in the tick, 5 in all.
    assert_eq!(midas.exact(7, 2), Score::zero());
    assert_eq!(midas.core.tick(), 5);
    // The same tick again: 3 in the tick, 6 in all, at tick 5.
    assert_eq!(midas.exact(7, 5), Score { excess: 9, spread: 24 });
    // A gap in the ticks is skipped: 1 in the tick, 7 in all, at tick 9.
    assert_eq!(midas.exact(7, 9), Score { excess: 2, spread: 56 });
}

#[test]
fn cores_fed_alike_score_alike() {
    let mut left: Relational<u64> = Relational::new(0.1, 0.001, 100);
    let mut right: Relational<u64> = Relational::new(0.1, 0.001, 100);
    let events: [((u64, u64), u64); 8] = [
        ((1, 2), 0),
        ((1, 2), 1),
        ((1, 3), 1),
        ((4, 2), 3),
        ((1, 2), 3),
        ((1, 2), 3),
        ((1, 2), 2),
        ((9, 9), 7),
    ];
    for (item, time) in events {
        assert_eq!(left.exact(item, time), right.exact(item, time));
        assert_eq!(left.core.tick(), right.core.tick());
    }
}

#[test]
fn relational_score_is_the_mean_of_its_three_signals() {
    let mut midas: Relational<u64> = Relational::new(0.1, 0.001, 100);
    for i in 0..4 {
        midas.exact((1, 2), i);
    }
    // Source 1 is known, destination 5 and the pair are new, at tick 4:
    // source 1 and 5, destination 1 and 1, pair 1 and 1.
    let score = midas.exact((1, 5), 4);
    assert_eq!(score.source, Score::zero());
    assert_eq!(score.dest, Score { excess: 3, spread: 3 });
    assert_eq!(score.combined, Score { excess: 3, spread: 3 });
    assert_eq!(mean(score), 2.);
    let exact = score.mean_fraction().unwrap();
    assert_eq!(exact.num * 1, exact.den * 2);
}
