use p25rx::subscribers::{Subscribers, MAX_SUBSCRIBERS};

#[test]
fn new_set_is_empty() {
    let subs = Subscribers::new();
    assert!(!subs.is_full());
    assert!(!subs.contains(3));
    assert_eq!(subs.visit_order(), Vec::<i32>::new());
}

#[test]
fn pushed_descriptors_are_held() {
    let mut subs = Subscribers::new();
    subs.push(10);
    subs.push(11);
    assert!(subs.contains(10));
    assert!(subs.contains(11));
    assert!(!subs.contains(12));
    assert_eq!(subs.visit_order(), vec![11, 10]);
}

#[test]
fn set_is_full_at_four() {
    let mut subs = Subscribers::new();
    assert_eq!(MAX_SUBSCRIBERS, 4);
    for id in 0..4 {
        assert!(!subs.is_full());
        subs.push(id);
    }
    assert!(subs.is_full());
    assert_eq!(subs.visit_order(), vec![3, 2, 1, 0]);
}

#[test]
fn retain_drops_the_failed_and_turns_the_order() {
    let mut subs = Subscribers::new();
    for id in [5, 6, 7, 8] {
        subs.push(id);
    }
    subs.retain(&[6, 8]);
    assert_eq!(subs.visit_order(), vec![5, 7]);
    assert!(!subs.is_full());
    assert!(!subs.contains(6));
    assert!(!subs.contains(8));
    subs.retain(&[]);
    assert_eq!(subs.visit_order(), vec![7, 5]);
}

#[test]
fn retain_ignores_strangers() {
    let mut subs = Subscribers::new();
    subs.push(1);
    subs.push(2);
    subs.retain(&[9, 9, 3]);
    assert_eq!(subs.visit_order(), vec![1, 2]);
}

#[test]
fn retain_can_empty_the_set() {
    let mut subs = Subscribers::new();
    subs.push(1);
    subs.push(2);
    subs.retain(&[2, 1]);
    assert_eq!(subs.visit_order(), Vec::<i32>::new());
    subs.retain(&[1]);
    assert_eq!(subs.visit_order(), Vec::<i32>::new());
}

#[test]
fn room_is_free_again_after_a_drop() {
    let mut subs = Subscribers::new();
    for id in 0..4 {
        subs.push(id);
    }
    subs.retain(&[0]);
    assert!(!subs.is_full());
    subs.push(0);
    assert!(subs.is_full());
    assert_eq!(subs.visit_order(), vec![0, 1, 2, 3]);
}
