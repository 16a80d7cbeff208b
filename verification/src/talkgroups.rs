//! Selection among the talkgroups that were granted a channel while the
//! receiver was collecting.

use vstd::prelude::*;

verus! {

/// A talkgroup the receiver could follow, and where.
#[derive(Clone, Copy, Debug, PartialEq, Eq, Structural)]
pub struct Candidate {
    pub talkgroup: u16,
    /// Frequency of its traffic channel, in Hz.
    pub freq: u32,
    /// Rank among the candidates; a larger value wins.
    pub priority: u8,
}

/// Whether talkgroup `tg` is among the candidates.
pub open spec fn knows(seen: Seq<Candidate>, tg: u16) -> bool {
    exists|i: int| 0 <= i < seen.len() && (#[trigger] seen[i]).talkgroup == tg
}

/// No talkgroup occurs twice among the candidates.
pub open spec fn distinct_groups(seen: Seq<Candidate>) -> bool {
    forall|i: int, j: int|
        0 <= i < j < seen.len() ==> (#[trigger] seen[i]).talkgroup != (#[trigger] seen[j]).talkgroup
}

/// The candidates after `c` was observed: a talkgroup counts once, so a
/// talkgroup that is already a candidate stays as it was first observed.
pub open spec fn recorded(seen: Seq<Candidate>, c: Candidate) -> Seq<Candidate> {
    if knows(seen, c.talkgroup) {
        seen
    } else {
        seen.push(c)
    }
}

/// The candidate to follow: the one of highest priority, and among those
/// the one observed first; none where there is no candidate.
pub open spec fn best(seen: Seq<Candidate>) -> Option<Candidate>
    decreases seen.len(),
{
    if seen.len() == 0 {
        None
    } else {
        match best(seen.drop_last()) {
            None => Some(seen.last()),
            Some(b) => if seen.last().priority > b.priority {
                Some(seen.last())
            } else {
                Some(b)
            },
        }
    }
}

/// Whether position `i` holds the candidate to follow: none has a higher
/// priority, and every earlier one has a lower priority.
pub open spec fn is_best(seen: Seq<Candidate>, i: int) -> bool {
    &&& 0 <= i < seen.len()
    &&& forall|j: int| 0 <= j < seen.len() ==> (#[trigger] seen[j]).priority <= seen[i].priority
    &&& forall|j: int| 0 <= j < i ==> (#[trigger] seen[j]).priority < seen[i].priority
}

/// `best` is none exactly where there is no candidate, and otherwise the
/// candidate at the one position that `is_best` describes.
pub proof fn lemma_best(seen: Seq<Candidate>)
    ensures
        seen.len() == 0 <==> best(seen).is_none(),
        seen.len() > 0 ==> exists|i: int| is_best(seen, i) && best(seen) == Some(seen[i]),
    decreases seen.len(),
{
    if seen.len() > 0 {
        let init = seen.drop_last();
        let last = seen.last();
        lemma_best(init);
        if init.len() == 0 {
            assert(is_best(seen, 0));
        } else {
            let k = choose|i: int| is_best(init, i) && best(init) == Some(init[i]);
            assert(forall|j: int| 0 <= j < init.len() ==> init[j] == seen[j]);
            if last.priority > init[k].priority {
                let n = seen.len() - 1;
                assert forall|j: int| 0 <= j < seen.len() implies (#[trigger] seen[j]).priority
                    <= seen[n].priority by {
                    if j < n {
                        assert(init[j].priority <= init[k].priority);
                    }
                }
                assert forall|j: int| 0 <= j < n implies (#[trigger] seen[j]).priority
                    < seen[n].priority by {
                    assert(init[j].priority <= init[k].priority);
                }
                assert(is_best(seen, n));
            } else {
                assert forall|j: int| 0 <= j < seen.len() implies (#[trigger] seen[j]).priority
                    <= seen[k].priority by {
                    if j < init.len() {
                        assert(init[j].priority <= init[k].priority);
                    }
                }
                assert forall|j: int| 0 <= j < k implies (#[trigger] seen[j]).priority
                    < seen[k].priority by {
                    assert(init[j].priority < init[k].priority);
                }
                assert(is_best(seen, k));
            }
        }
    }
}

/// The candidate to follow is one of the candidates.
pub proof fn lemma_best_is_candidate(seen: Seq<Candidate>)
    ensures
        best(seen) matches Some(c) ==> seen.contains(c),
{
    lemma_best(seen);
}

/// Recording keeps the talkgroups distinct, keeps every earlier
/// candidate, and adds nothing but the observed one.
pub proof fn lemma_recorded(seen: Seq<Candidate>, c: Candidate)
    requires
        distinct_groups(seen),
    ensures
        distinct_groups(recorded(seen, c)),
        knows(recorded(seen, c), c.talkgroup),
        forall|x: Candidate| seen.contains(x) ==> #[trigger] recorded(seen, c).contains(x),
        forall|x: Candidate| #[trigger]
            recorded(seen, c).contains(x) ==> seen.contains(x) || x == c,
{
    let out = recorded(seen, c);
    if knows(seen, c.talkgroup) {
    } else {
        assert(out[seen.len() as int] == c);
        assert forall|i: int, j: int| 0 <= i < j < out.len() implies (#[trigger] out[i]).talkgroup
            != (#[trigger] out[j]).talkgroup by {
            if j < seen.len() {
                assert(seen[i] == out[i] && seen[j] == out[j]);
            } else {
                assert(seen[i] == out[i]);
            }
        }
        assert forall|x: Candidate| seen.contains(x) implies #[trigger] out.contains(x) by {
            let k = choose|k: int| 0 <= k < seen.len() && seen[k] == x;
            assert(out[k] == x);
        }
        assert forall|x: Candidate| #[trigger] out.contains(x) implies seen.contains(x) || x
            == c by {
            let k = choose|k: int| 0 <= k < out.len() && out[k] == x;
            if k < seen.len() {
                assert(seen[k] == x);
            }
        }
    }
}

/// The talkgroups observed while the receiver collects, each with the
/// frequency and priority it was first granted with.
pub struct TalkgroupSelection {
    seen: Vec<Candidate>,
}

impl View for TalkgroupSelection {
    type V = Seq<Candidate>;

    closed spec fn view(&self) -> Seq<Candidate> {
        self.seen@
    }
}

impl TalkgroupSelection {
    /// No talkgroup is held twice.
    pub open spec fn wf(&self) -> bool {
        distinct_groups(self@)
    }

    /// A selection without candidates.
    pub fn new() -> (s: TalkgroupSelection)
        ensures
            s.wf(),
            s@ == Seq::<Candidate>::empty(),
    {
        TalkgroupSelection { seen: Vec::new() }
    }

    /// Number of candidates.
    pub fn len(&self) -> (n: usize)
        ensures
            n == self@.len(),
    {
        self.seen.len()
    }

    /// Whether talkgroup `tg` is a candidate.
    pub fn contains(&self, tg: u16) -> (found: bool)
        ensures
            found == knows(self@, tg),
    {
        let mut i: usize = 0;
        while i < self.seen.len()
            invariant
                i <= self.seen@.len(),
                forall|k: int| 0 <= k < i ==> (#[trigger] self.seen@[k]).talkgroup != tg,
            decreases self.seen@.len() - i,
        {
            if self.seen[i].talkgroup == tg {
                return true;
            }
            i = i + 1;
        }
        false
    }

    /// Observes a grant of `talkgroup` on `freq` with `priority`. A
    /// talkgroup counts once: later grants of one already observed change
    /// nothing.
    pub fn record(&mut self, talkgroup: u16, freq: u32, priority: u8)
        requires
            old(self).wf(),
        ensures
            final(self).wf(),
            final(self)@ == recorded(old(self)@, Candidate { talkgroup, freq, priority }),
    {
        if !self.contains(talkgroup) {
            self.seen.push(Candidate { talkgroup, freq, priority });
        }
        proof {
            lemma_recorded(old(self)@, Candidate { talkgroup, freq, priority });
        }
    }

    /// The candidate to follow, if there is one: of highest priority, and
    /// among equals the one observed first.
    pub fn pick(&self) -> (choice: Option<Candidate>)
        ensures
            choice == best(self@),
            choice.is_none() <==> self@.len() == 0,
            choice matches Some(c) ==> exists|i: int| is_best(self@, i) && self@[i] == c,
    {
        let mut choice: Option<Candidate> = None;
        let mut i: usize = 0;
        while i < self.seen.len()
            invariant
                i <= self.seen@.len(),
                choice == best(self.seen@.take(i as int)),
            decreases self.seen@.len() - i,
        {
            let c = self.seen[i];
            assert(self.seen@.take(i + 1).drop_last() =~= self.seen@.take(i as int));
            choice = match choice {
                None => Some(c),
                Some(b) => if c.priority > b.priority {
                    Some(c)
                } else {
                    Some(b)
                },
            };
            i = i + 1;
        }
        assert(self.seen@.take(i as int) =~= self.seen@);
        proof {
            lemma_best(self@);
        }
        choice
    }

    /// Forgets every candidate.
    pub fn clear(&mut self)
        ensures
            final(self).wf(),
            final(self)@ == Seq::<Candidate>::empty(),
    {
        self.seen.clear();
    }
}

impl Default for TalkgroupSelection {
    fn default() -> (s: TalkgroupSelection)
        ensures
            s.wf(),
            s@ == Seq::<Candidate>::empty(),
    {
        TalkgroupSelection::new()
    }
}

} // verus!
