use copra::monitor::{record_completion, ThroughputMaintainer};
use copra::throughput::throughput_between;
use std::sync::atomic::{AtomicUsize, Ordering};
use std::sync::Arc;

#[test]
fn throughput_is_the_distance_between_readings() {
    assert_eq!(throughput_between(0, 0), 0);
    assert_eq!(throughput_between(0, 5), 5);
    assert_eq!(throughput_between(100, 250), 150);
    assert_eq!(throughput_between(250, 250), 0);
    assert_eq!(throughput_between(0, usize::MAX), usize::MAX);
}

#[test]
fn throughput_across_the_end_of_the_counter() {
    assert_eq!(throughput_between(usize::MAX, 0), 1);
    assert_eq!(throughput_between(usize::MAX - 2, 4), 7);
    assert_eq!(throughput_between(1, 0), usize::MAX);
    assert_eq!(throughput_between(usize::MAX, usize::MAX - 1), usize::MAX);
    assert_eq!(throughput_between(7, 3), 3usize.wrapping_sub(7));
}

#[test]
fn completions_are_counted_one_by_one() {
    let finished = AtomicUsize::new(0);
    record_completion(&finished);
    record_completion(&finished);
    record_completion(&finished);
    assert_eq!(finished.load(Ordering::SeqCst), 3);
    let finished = AtomicUsize::new(usize::MAX);
    record_completion(&finished);
    assert_eq!(finished.load(Ordering::SeqCst), 0);
}

#[test]
fn each_tick_publishes_what_was_completed_since_the_last() {
    let finished = Arc::new(AtomicUsize::new(0));
    let throughput = Arc::new(AtomicUsize::new(999));
    let mut maintainer = ThroughputMaintainer::new(finished.clone(), throughput.clone());
    assert_eq!(maintainer.previous(), 0);
    assert_eq!(maintainer.tick(), 0);
    assert_eq!(throughput.load(Ordering::SeqCst), 0);
    for _ in 0..5 {
        record_completion(&finished);
    }
    assert_eq!(maintainer.tick(), 5);
    assert_eq!(throughput.load(Ordering::SeqCst), 5);
    assert_eq!(maintainer.previous(), 5);
    for _ in 0..2 {
        record_completion(&finished);
    }
    assert_eq!(maintainer.tick(), 2);
    assert_eq!(throughput.load(Ordering::SeqCst), 2);
    assert_eq!(maintainer.tick(), 0);
    assert_eq!(throughput.load(Ordering::SeqCst), 0);
    assert_eq!(maintainer.previous(), 7);
}

#[test]
fn tick_across_the_end_of_the_counter() {
    let finished = Arc::new(AtomicUsize::new(usize::MAX - 1));
    let throughput = Arc::new(AtomicUsize::new(0));
    let mut maintainer = ThroughputMaintainer::new(finished.clone(), throughput.clone());
    assert_eq!(maintainer.tick(), usize::MAX - 1);
    for _ in 0..4 {
        record_completion(&finished);
    }
    assert_eq!(finished.load(Ordering::SeqCst), 2);
    assert_eq!(maintainer.tick(), 4);
    assert_eq!(throughput.load(Ordering::SeqCst), 4);
}

#[test]
fn each_sample_is_compared_with_the_one_before() {
    let finished = Arc::new(AtomicUsize::new(0));
    let throughput = Arc::new(AtomicUsize::new(0));
    let mut maintainer = ThroughputMaintainer::new(finished, throughput.clone());
    assert_eq!(maintainer.sample(5), 5);
    assert_eq!(maintainer.previous(), 5);
    assert_eq!(maintainer.sample(12), 7);
    assert_eq!(maintainer.sample(12), 0);
    assert_eq!(maintainer.sample(3), 3usize.wrapping_sub(12));
    assert_eq!(maintainer.previous(), 3);
    assert_eq!(throughput.load(Ordering::SeqCst), 0);
}

#[test]
fn maintainer_reads_and_publishes_in_the_cells_it_was_given() {
    let finished = Arc::new(AtomicUsize::new(0));
    let throughput = Arc::new(AtomicUsize::new(0));
    let other = Arc::new(AtomicUsize::new(77));
    let mut maintainer = ThroughputMaintainer::new(finished.clone(), throughput.clone());
    finished.store(9, Ordering::SeqCst);
    other.store(1000, Ordering::SeqCst);
    assert_eq!(maintainer.tick(), 9);
    assert_eq!(throughput.load(Ordering::SeqCst), 9);
    assert_eq!(other.load(Ordering::SeqCst), 1000);
    assert_eq!(finished.load(Ordering::SeqCst), 9);
}
