use rangescan::barrier::WaitGroup;

#[test]
fn new_barrier_is_drained() {
    let group = WaitGroup::new();
    assert_eq!(group.outstanding(), 0);
    assert!(group.try_wait());
}

#[test]
fn add_raises_the_count() {
    let mut group = WaitGroup::new();
    group.add(1);
    assert_eq!(group.outstanding(), 1);
    group.add(4);
    assert_eq!(group.outstanding(), 5);
    group.add(0);
    assert_eq!(group.outstanding(), 5);
    assert!(!group.try_wait());
}

#[test]
fn done_lowers_the_count_by_one() {
    let mut group = WaitGroup::new();
    group.add(3);
    group.done();
    assert_eq!(group.outstanding(), 2);
    group.done();
    group.done();
    assert_eq!(group.outstanding(), 0);
    assert!(group.try_wait());
}

#[test]
fn done_on_a_drained_barrier_does_nothing() {
    let mut group = WaitGroup::new();
    group.done();
    assert_eq!(group.outstanding(), 0);
    group.add(1);
    group.done();
    group.done();
    group.done();
    assert_eq!(group.outstanding(), 0);
    group.add(2);
    assert_eq!(group.outstanding(), 2);
}

#[test]
fn barrier_drains_when_every_add_is_matched() {
    let mut group = WaitGroup::new();
    for _ in 0..10 {
        group.add(1);
    }
    for taken in 0..10 {
        assert!(!group.try_wait(), "drained after {} of 10", taken);
        group.done();
    }
    assert!(group.try_wait());
}
