use p25rx::policy::{PolicyMode, ReceiverPolicy};

#[test]
fn new_policy_is_idle() {
    let p = ReceiverPolicy::new(48_000, 96_000, 96_000);
    assert_eq!(p.mode(), PolicyMode::Idle);
    assert_eq!(p.counter(), 0);
}

#[test]
fn idle_policy_counts_nothing() {
    let mut p = ReceiverPolicy::new(3, 3, 3);
    for _ in 0..10 {
        assert_eq!(p.tick(), None);
        assert_eq!(p.counter(), 0);
        assert_eq!(p.mode(), PolicyMode::Idle);
    }
}

#[test]
fn span_ends_with_its_last_sample() {
    let mut p = ReceiverPolicy::new(3, 5, 7);
    p.enter(PolicyMode::Collecting);
    assert_eq!(p.tick(), None);
    assert_eq!(p.counter(), 1);
    assert_eq!(p.tick(), None);
    assert_eq!(p.counter(), 2);
    assert_eq!(p.tick(), Some(PolicyMode::Collecting));
    assert_eq!(p.mode(), PolicyMode::Idle);
    assert_eq!(p.counter(), 0);
}

#[test]
fn each_mode_has_its_own_span() {
    let mut p = ReceiverPolicy::new(3, 5, 7);
    for (mode, span) in [(PolicyMode::Collecting, 3), (PolicyMode::Locked, 5), (PolicyMode::Paused, 7)] {
        p.enter(mode);
        for _ in 1..span {
            assert_eq!(p.tick(), None);
            assert_eq!(p.mode(), mode);
        }
        assert_eq!(p.tick(), Some(mode));
        assert_eq!(p.mode(), PolicyMode::Idle);
    }
}

#[test]
fn entering_a_mode_starts_counting_anew() {
    let mut p = ReceiverPolicy::new(3, 5, 7);
    p.enter(PolicyMode::Locked);
    p.tick();
    p.tick();
    assert_eq!(p.counter(), 2);
    p.enter(PolicyMode::Locked);
    assert_eq!(p.counter(), 0);
    p.tick();
    p.enter(PolicyMode::Paused);
    assert_eq!(p.counter(), 0);
    assert_eq!(p.mode(), PolicyMode::Paused);
}

#[test]
fn empty_and_single_sample_spans_end_at_once() {
    for span in [0, 1] {
        let mut p = ReceiverPolicy::new(span, span, span);
        p.enter(PolicyMode::Paused);
        assert_eq!(p.tick(), Some(PolicyMode::Paused));
        assert_eq!(p.mode(), PolicyMode::Idle);
    }
}

#[test]
fn longest_span_does_not_overflow() {
    let mut p = ReceiverPolicy::new(usize::MAX, usize::MAX, usize::MAX);
    p.enter(PolicyMode::Collecting);
    assert_eq!(p.tick(), None);
    assert_eq!(p.counter(), 1);
}
