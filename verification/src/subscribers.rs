//! The bounded set of event subscribers.
//!
//! A subscriber is known by the descriptor of its stream. The set holds at
//! most four of them, each once, in the order they were taken.

use arrayvec::ArrayVec;
use vstd::prelude::*;

verus! {

/// Most subscribers that are served at one time.
pub const MAX_SUBSCRIBERS: usize = 4;

/// The bounded vector that holds the subscribers' descriptors: an
/// `arrayvec::ArrayVec` with room for four. Its inside is not looked at;
/// all that is known of it is what the functions below say of `slots`.
#[verifier::external_body]
pub struct Slots {
    inner: ArrayVec<[i32; 4]>,
}

/// The descriptors held by a subscriber vector, in the order in which
/// `ArrayVec` holds them: the one pushed first comes first.
pub uninterp spec fn slots(v: Slots) -> Seq<i32>;

/// `ArrayVec::new`: the new vector holds nothing.
#[verifier::external_body]
fn slots_new() -> (v: Slots)
    ensures
        slots(v) == Seq::<i32>::empty(),
{
    Slots { inner: ArrayVec::new() }
}

/// `ArrayVec::is_full`: whether the vector holds as many descriptors as
/// its capacity of four allows.
#[verifier::external_body]
fn slots_is_full(v: &Slots) -> (full: bool)
    ensures
        full == (slots(*v).len() == 4),
{
    v.inner.is_full()
}

/// `ArrayVec::as_slice`: the descriptors held, oldest first.
#[verifier::external_body]
fn slots_as_slice(v: &Slots) -> (s: &[i32])
    ensures
        s@ == slots(*v),
{
    v.inner.as_slice()
}

/// `ArrayVec::push`: appends `id`. The vector panics when full, so a
/// caller has to know that fewer than four descriptors are held.
#[verifier::external_body]
fn slots_push(v: &mut Slots, id: i32)
    requires
        slots(*old(v)).len() < 4,
    ensures
        slots(*final(v)) == slots(*old(v)).push(id),
{
    v.inner.push(id)
}

/// `ArrayVec::pop`: removes and returns the last descriptor, or returns
/// `None` and changes nothing when the vector is empty.
#[verifier::external_body]
fn slots_pop(v: &mut Slots) -> (r: Option<i32>)
    ensures
        slots(*old(v)).len() == 0 ==> r.is_none() && slots(*final(v)) == slots(*old(v)),
        slots(*old(v)).len() > 0 ==> r == Some(slots(*old(v)).last()) && slots(*final(v))
            == slots(*old(v)).drop_last(),
{
    v.inner.pop()
}

/// A set of subscribers is well formed when it respects the bound and
/// holds no descriptor twice.
pub open spec fn subscribers_wf(subs: Seq<i32>) -> bool {
    subs.len() <= MAX_SUBSCRIBERS && subs.no_duplicates()
}

/// The subscribers that are left after a round of writes in which the
/// writes to `failed` went wrong: those not in `failed`, the one taken
/// last now first.
pub open spec fn survivors(subs: Seq<i32>, failed: Seq<i32>) -> Seq<i32>
    decreases subs.len(),
{
    if subs.len() == 0 {
        Seq::empty()
    } else {
        let rest = survivors(subs.drop_last(), failed);
        if failed.contains(subs.last()) {
            rest
        } else {
            seq![subs.last()] + rest
        }
    }
}

/// The survivors are exactly the subscribers whose writes went well, and a
/// well-formed set stays well formed.
pub proof fn lemma_survivors(subs: Seq<i32>, failed: Seq<i32>)
    ensures
        survivors(subs, failed).len() <= subs.len(),
        forall|id: i32| #[trigger]
            survivors(subs, failed).contains(id) <==> subs.contains(id) && !failed.contains(id),
        subs.no_duplicates() ==> survivors(subs, failed).no_duplicates(),
        subscribers_wf(subs) ==> subscribers_wf(survivors(subs, failed)),
    decreases subs.len(),
{
    if subs.len() > 0 {
        let init = subs.drop_last();
        let last = subs.last();
        let rest = survivors(init, failed);
        lemma_survivors(init, failed);
        let out = survivors(subs, failed);
        assert forall|id: i32| #[trigger]
            out.contains(id) <==> subs.contains(id) && !failed.contains(id) by {
            if subs.contains(id) {
                let k = choose|k: int| 0 <= k < subs.len() && subs[k] == id;
                if k < init.len() {
                    assert(init[k] == id);
                    assert(init.contains(id));
                }
            }
            if init.contains(id) {
                let k = choose|k: int| 0 <= k < init.len() && init[k] == id;
                assert(subs[k] == id);
            }
            assert(subs[subs.len() - 1] == last);
            if failed.contains(last) {
            } else {
                assert(out == seq![last] + rest);
                assert(out[0] == last);
                if rest.contains(id) {
                    let k = choose|k: int| 0 <= k < rest.len() && rest[k] == id;
                    assert(out[k + 1] == id);
                }
                if out.contains(id) {
                    let k = choose|k: int| 0 <= k < out.len() && out[k] == id;
                    if k > 0 {
                        assert(rest[k - 1] == id);
                    }
                }
            }
        }
        if subs.no_duplicates() {
            assert(init.no_duplicates());
            if !failed.contains(last) {
                assert(!init.contains(last)) by {
                    if init.contains(last) {
                        let k = choose|k: int| 0 <= k < init.len() && init[k] == last;
                        assert(subs[k] == subs[subs.len() - 1]);
                    }
                }
                assert(!rest.contains(last));
                assert forall|i: int, j: int| 0 <= i < out.len() && 0 <= j < out.len() && i != j
                    implies out[i] != out[j] by {
                    if i == 0 {
                        assert(rest[j - 1] == out[j]);
                        assert(rest.contains(out[j]));
                    } else if j == 0 {
                        assert(rest[i - 1] == out[i]);
                        assert(rest.contains(out[i]));
                    } else {
                        assert(rest[i - 1] == out[i]);
                        assert(rest[j - 1] == out[j]);
                    }
                }
            }
        }
    }
}

fn holds(ids: &[i32], id: i32) -> (found: bool)
    ensures
        found == ids@.contains(id),
{
    let mut i: usize = 0;
    while i < ids.len()
        invariant
            i <= ids.len(),
            forall|k: int| 0 <= k < i ==> ids@[k] != id,
        decreases ids.len() - i,
    {
        if ids[i] == id {
            return true;
        }
        i = i + 1;
    }
    false
}

/// The subscribers of the hub.
pub struct Subscribers {
    ids: Slots,
}

impl View for Subscribers {
    type V = Seq<i32>;

    closed spec fn view(&self) -> Seq<i32> {
        slots(self.ids)
    }
}

impl Subscribers {
    /// The bound is respected and no descriptor is held twice.
    pub open spec fn wf(&self) -> bool {
        subscribers_wf(self@)
    }

    /// The empty set.
    pub fn new() -> (subs: Subscribers)
        ensures
            subs.wf(),
            subs@ == Seq::<i32>::empty(),
    {
        Subscribers { ids: slots_new() }
    }

    /// Whether no further subscriber can be taken.
    pub fn is_full(&self) -> (full: bool)
        ensures
            full == (self@.len() == MAX_SUBSCRIBERS),
    {
        slots_is_full(&self.ids)
    }

    /// Whether `id` is a subscriber.
    pub fn contains(&self, id: i32) -> (found: bool)
        ensures
            found == self@.contains(id),
    {
        holds(slots_as_slice(&self.ids), id)
    }

    /// Takes `id` as the newest subscriber.
    pub fn push(&mut self, id: i32)
        requires
            old(self).wf(),
            old(self)@.len() < MAX_SUBSCRIBERS,
            !old(self)@.contains(id),
        ensures
            final(self).wf(),
            final(self)@ == old(self)@.push(id),
    {
        slots_push(&mut self.ids, id);
        proof {
            let before = old(self)@;
            let after = self@;
            assert forall|i: int, j: int| 0 <= i < after.len() && 0 <= j < after.len() && i != j
                implies after[i] != after[j] by {
                if i < before.len() {
                    assert(before[i] == after[i]);
                    assert(before.contains(after[i]));
                }
                if j < before.len() {
                    assert(before[j] == after[j]);
                    assert(before.contains(after[j]));
                }
            }
        }
    }

    /// The subscribers in the order in which a round of writes visits
    /// them: the newest comes first.
    pub fn visit_order(&self) -> (order: Vec<i32>)
        ensures
            order@ == self@.reverse(),
    {
        let ids = slots_as_slice(&self.ids);
        let mut order: Vec<i32> = Vec::new();
        let mut left: usize = ids.len();
        while left > 0
            invariant
                left <= ids.len(),
                ids@ == self@,
                order@.len() == ids.len() - left,
                forall|k: int| 0 <= k < order@.len() ==> order@[k] == ids@[ids.len() - 1 - k],
            decreases left,
        {
            left = left - 1;
            order.push(ids[left]);
        }
        assert(order@ =~= self@.reverse());
        order
    }

    /// Ends a round of writes: the subscribers in `failed` leave the set,
    /// the others stay.
    pub fn retain(&mut self, failed: &[i32])
        requires
            old(self).wf(),
        ensures
            final(self).wf(),
            final(self)@ == survivors(old(self)@, failed@),
    {
        let mut keep = slots_new();
        loop
            invariant
                slots(keep) + survivors(self@, failed@) == survivors(old(self)@, failed@),
                slots(keep).len() + self@.len() <= MAX_SUBSCRIBERS,
            ensures
                slots(keep) == survivors(old(self)@, failed@),
            decreases self@.len(),
        {
            let ghost before = self@;
            let ghost kept = slots(keep);
            match slots_pop(&mut self.ids) {
                Some(id) => {
                    if !holds(failed, id) {
                        slots_push(&mut keep, id);
                        assert(slots(keep) + survivors(self@, failed@) =~= kept + (seq![id]
                            + survivors(self@, failed@)));
                    }
                },
                None => {
                    assert(survivors(before, failed@) =~= Seq::<i32>::empty());
                    assert(kept + Seq::<i32>::empty() =~= kept);
                    break ;
                },
            }
        }
        self.ids = keep;
        proof {
            lemma_survivors(old(self)@, failed@);
        }
    }
}

} // verus!
