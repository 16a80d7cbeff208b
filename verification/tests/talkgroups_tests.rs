use p25rx::talkgroups::{Candidate, TalkgroupSelection};

fn cand(talkgroup: u16, freq: u32, priority: u8) -> Candidate {
    Candidate { talkgroup, freq, priority }
}

#[test]
fn empty_selection_picks_nothing() {
    let s = TalkgroupSelection::new();
    assert_eq!(s.pick(), None);
    assert_eq!(s.len(), 0);
    assert_eq!(TalkgroupSelection::default().pick(), None);
}

#[test]
fn highest_priority_is_picked() {
    let mut s = TalkgroupSelection::new();
    s.record(1, 851_012_500, 1);
    s.record(2, 851_025_000, 5);
    s.record(1, 851_012_500, 1);
    assert_eq!(s.len(), 2);
    assert_eq!(s.pick(), Some(cand(2, 851_025_000, 5)));
}

#[test]
fn first_observed_wins_among_equals() {
    let mut s = TalkgroupSelection::new();
    s.record(7, 100, 3);
    s.record(8, 200, 3);
    s.record(9, 300, 2);
    assert_eq!(s.pick(), Some(cand(7, 100, 3)));
}

#[test]
fn a_talkgroup_counts_once() {
    let mut s = TalkgroupSelection::new();
    s.record(7, 100, 1);
    s.record(7, 999, 9);
    assert_eq!(s.len(), 1);
    assert!(s.contains(7));
    assert!(!s.contains(8));
    assert_eq!(s.pick(), Some(cand(7, 100, 1)));
}

#[test]
fn reserved_talkgroups_are_candidates_like_any_other() {
    let mut s = TalkgroupSelection::new();
    s.record(0, 100, 0);
    s.record(0xffff, 200, 0);
    assert_eq!(s.len(), 2);
    assert_eq!(s.pick(), Some(cand(0, 100, 0)));
}

#[test]
fn clear_forgets_every_candidate() {
    let mut s = TalkgroupSelection::new();
    s.record(7, 100, 1);
    s.clear();
    assert_eq!(s.len(), 0);
    assert_eq!(s.pick(), None);
    s.record(7, 300, 2);
    assert_eq!(s.pick(), Some(cand(7, 300, 2)));
}

#[test]
fn single_candidate_is_picked_whatever_its_priority() {
    let mut s = TalkgroupSelection::new();
    s.record(7, 100, 0);
    assert_eq!(s.pick(), Some(cand(7, 100, 0)));
}
