//! Runs of the hub: what holds of every sequence of handshakes and events.

use crate::event::{HubEvent, SerdeEvent, StateEvent};
use crate::http::{HttpVersion, Method, StatusCode};
use crate::hub::{
    admission, messages, reply_of, state_after_event, HubModel, Reply, StateView,
};
use crate::recv::{Action, ReceiverModel, RecvEvent};
use crate::subscribers::{lemma_survivors, survivors, MAX_SUBSCRIBERS};
use vstd::prelude::*;

verus! {

/// One thing that happens to the hub: a handshake that `HubTask::subscribe`
/// completes, or an event that `HubTask::handle_event` takes in and whose
/// round of writes `HubTask::drop_failed` ends.
pub enum HubInput {
    /// The stream head went out to the stream with this descriptor, which
    /// asked to subscribe.
    Subscribe(i32),
    /// An event came in, and the writes of its messages to the
    /// subscribers in `failed` went wrong.
    Event { event: HubEvent, failed: Seq<i32> },
}

/// The hub after one input. A stream becomes a subscriber where there is
/// room and it is none yet. An event is taken in by the state, and the
/// subscribers whose writes went wrong are dropped.
pub open spec fn hub_step(h: HubModel, input: HubInput) -> HubModel {
    match input {
        HubInput::Subscribe(id) => if h.has_room() && !h.subscribers.contains(id) {
            HubModel { subscribers: h.subscribers.push(id), ..h }
        } else {
            h
        },
        HubInput::Event { event, failed } => HubModel {
            state: state_after_event(h.state, event),
            subscribers: survivors(h.subscribers, failed),
        },
    }
}

/// The messages that an input puts on the streams.
pub open spec fn emitted_by(h: HubModel, input: HubInput) -> Seq<SerdeEvent> {
    match input {
        HubInput::Subscribe(_) => Seq::empty(),
        HubInput::Event { event, failed } => messages(
            event,
            state_after_event(h.state, event).channels,
        ),
    }
}

/// The messages that an input puts on the stream of `id` in full: those
/// of an event, where `id` is a subscriber and its write goes well.
pub open spec fn delivered_by(h: HubModel, input: HubInput, id: i32) -> Seq<SerdeEvent> {
    match input {
        HubInput::Subscribe(_) => Seq::empty(),
        HubInput::Event { event, failed } => if h.subscribers.contains(id) && !failed.contains(id) {
            emitted_by(h, input)
        } else {
            Seq::empty()
        },
    }
}

/// The hub after a sequence of inputs.
pub open spec fn hub_run(h: HubModel, inputs: Seq<HubInput>) -> HubModel
    decreases inputs.len(),
{
    if inputs.len() == 0 {
        h
    } else {
        hub_step(hub_run(h, inputs.drop_last()), inputs.last())
    }
}

/// All messages emitted over a sequence of inputs, in order.
pub open spec fn emitted(h: HubModel, inputs: Seq<HubInput>) -> Seq<SerdeEvent>
    decreases inputs.len(),
{
    if inputs.len() == 0 {
        Seq::empty()
    } else {
        emitted(h, inputs.drop_last()) + emitted_by(
            hub_run(h, inputs.drop_last()),
            inputs.last(),
        )
    }
}

/// All messages delivered to `id` over a sequence of inputs, in order.
pub open spec fn received(h: HubModel, inputs: Seq<HubInput>, id: i32) -> Seq<SerdeEvent>
    decreases inputs.len(),
{
    if inputs.len() == 0 {
        Seq::empty()
    } else {
        received(h, inputs.drop_last(), id) + delivered_by(
            hub_run(h, inputs.drop_last()),
            inputs.last(),
            id,
        )
    }
}

/// Whether no write to `id` goes wrong over the inputs.
pub open spec fn never_fails(inputs: Seq<HubInput>, id: i32) -> bool {
    forall|j: int|
        0 <= j < inputs.len() ==> (#[trigger] inputs[j] matches HubInput::Event { event, failed }
            ==> !failed.contains(id))
}

/// Whether `id` completes no handshake over the inputs.
pub open spec fn never_subscribes(inputs: Seq<HubInput>, id: i32) -> bool {
    forall|j: int| 0 <= j < inputs.len() ==> #[trigger] inputs[j] != HubInput::Subscribe(id)
}

/// One input leaves a well-formed hub well formed.
pub proof fn lemma_hub_step_wf(h: HubModel, input: HubInput)
    requires
        h.wf(),
    ensures
        hub_step(h, input).wf(),
{
    match input {
        HubInput::Subscribe(id) => {
            if h.has_room() && !h.subscribers.contains(id) {
                let before = h.subscribers;
                let after = before.push(id);
                assert forall|i: int, j: int|
                    0 <= i < after.len() && 0 <= j < after.len() && i != j implies after[i]
                    != after[j] by {
                    if i < before.len() {
                        assert(before[i] == after[i]);
                        assert(before.contains(after[i]));
                    }
                    if j < before.len() {
                        assert(before[j] == after[j]);
                        assert(before.contains(after[j]));
                    }
                }
            }
        },
        HubInput::Event { event, failed } => {
            lemma_survivors(h.subscribers, failed);
        },
    }
}

/// Whatever happens, the hub never serves more than four subscribers, and
/// never one of them twice.
pub proof fn lemma_hub_run_wf(h: HubModel, inputs: Seq<HubInput>)
    requires
        h.wf(),
    ensures
        hub_run(h, inputs).wf(),
        hub_run(h, inputs).subscribers.len() <= MAX_SUBSCRIBERS,
    decreases inputs.len(),
{
    if inputs.len() > 0 {
        lemma_hub_run_wf(h, inputs.drop_last());
        lemma_hub_step_wf(hub_run(h, inputs.drop_last()), inputs.last());
    }
}

/// A connection that asks to subscribe while four subscribers are served
/// is turned away as one request too many, and the four stay.
pub proof fn lemma_fifth_subscriber_refused(h: HubModel, id: i32)
    requires
        h.wf(),
        h.subscribers.len() == MAX_SUBSCRIBERS,
    ensures
        admission(h, true) == Err::<(), StatusCode>(StatusCode::TooManyRequests),
        hub_step(h, HubInput::Subscribe(id)) == h,
{
}

proof fn lemma_prefix_never_fails(inputs: Seq<HubInput>, id: i32)
    requires
        inputs.len() > 0,
        never_fails(inputs, id),
    ensures
        never_fails(inputs.drop_last(), id),
{
    let prefix = inputs.drop_last();
    assert forall|j: int| 0 <= j < prefix.len() implies (#[trigger] prefix[j] matches HubInput::Event {
        event,
        failed,
    } ==> !failed.contains(id)) by {
        assert(prefix[j] == inputs[j]);
    }
}

proof fn lemma_prefix_never_subscribes(inputs: Seq<HubInput>, id: i32)
    requires
        inputs.len() > 0,
        never_subscribes(inputs, id),
    ensures
        never_subscribes(inputs.drop_last(), id),
{
    let prefix = inputs.drop_last();
    assert forall|j: int| 0 <= j < prefix.len() implies #[trigger] prefix[j] != HubInput::Subscribe(
        id,
    ) by {
        assert(prefix[j] == inputs[j]);
    }
}

/// A subscriber whose writes never go wrong stays a subscriber and
/// receives every message emitted, in the order of emission.
pub proof fn lemma_subscriber_receives_all(h: HubModel, inputs: Seq<HubInput>, id: i32)
    requires
        h.wf(),
        h.subscribers.contains(id),
        never_fails(inputs, id),
    ensures
        hub_run(h, inputs).subscribers.contains(id),
        received(h, inputs, id) == emitted(h, inputs),
    decreases inputs.len(),
{
    if inputs.len() > 0 {
        let prefix = inputs.drop_last();
        let last = inputs.last();
        assert(inputs[inputs.len() - 1] == last);
        lemma_prefix_never_fails(inputs, id);
        lemma_subscriber_receives_all(h, prefix, id);
        lemma_hub_run_wf(h, prefix);
        let before = hub_run(h, prefix);
        match last {
            HubInput::Subscribe(other) => {
                if before.has_room() && !before.subscribers.contains(other) {
                    let k = choose|k: int|
                        0 <= k < before.subscribers.len() && before.subscribers[k] == id;
                    assert(before.subscribers.push(other)[k] == id);
                }
            },
            HubInput::Event { event, failed } => {
                lemma_survivors(before.subscribers, failed);
            },
        }
    }
}

/// A stream that is no subscriber and completes no handshake receives
/// nothing.
pub proof fn lemma_stranger_receives_nothing(h: HubModel, inputs: Seq<HubInput>, id: i32)
    requires
        !h.subscribers.contains(id),
        never_subscribes(inputs, id),
    ensures
        !hub_run(h, inputs).subscribers.contains(id),
        received(h, inputs, id) == Seq::<SerdeEvent>::empty(),
    decreases inputs.len(),
{
    if inputs.len() > 0 {
        let prefix = inputs.drop_last();
        let last = inputs.last();
        assert(inputs[inputs.len() - 1] == last);
        lemma_prefix_never_subscribes(inputs, id);
        lemma_stranger_receives_nothing(h, prefix, id);
        let before = hub_run(h, prefix);
        match last {
            HubInput::Subscribe(other) => {
                if before.has_room() && !before.subscribers.contains(other) {
                    let after = before.subscribers.push(other);
                    if after.contains(id) {
                        let k = choose|k: int| 0 <= k < after.len() && after[k] == id;
                        if k < before.subscribers.len() {
                            assert(before.subscribers[k] == id);
                        }
                    }
                }
            },
            HubInput::Event { event, failed } => {
                lemma_survivors(before.subscribers, failed);
            },
        }
        assert(received(h, prefix, id) + Seq::<SerdeEvent>::empty() =~= received(h, prefix, id));
    }
}

/// Running over two sequences, one after the other.
pub proof fn lemma_hub_run_add(h: HubModel, a: Seq<HubInput>, b: Seq<HubInput>, id: i32)
    ensures
        hub_run(h, a + b) == hub_run(hub_run(h, a), b),
        received(h, a + b, id) == received(h, a, id) + received(hub_run(h, a), b, id),
        emitted(h, a + b) == emitted(h, a) + emitted(hub_run(h, a), b),
    decreases b.len(),
{
    if b.len() == 0 {
        assert(a + b =~= a);
        assert(received(h, a, id) + Seq::<SerdeEvent>::empty() =~= received(h, a, id));
        assert(emitted(h, a) + Seq::<SerdeEvent>::empty() =~= emitted(h, a));
    } else {
        assert((a + b).drop_last() =~= a + b.drop_last());
        assert((a + b).last() == b.last());
        lemma_hub_run_add(h, a, b.drop_last(), id);
        let mid = hub_run(h, a);
        let before = hub_run(mid, b.drop_last());
        assert((received(h, a, id) + received(mid, b.drop_last(), id)) + delivered_by(
            before,
            b.last(),
            id,
        ) =~= received(h, a, id) + (received(mid, b.drop_last(), id) + delivered_by(
            before,
            b.last(),
            id,
        )));
        assert((emitted(h, a) + emitted(mid, b.drop_last())) + emitted_by(before, b.last())
            =~= emitted(h, a) + (emitted(mid, b.drop_last()) + emitted_by(before, b.last())));
    }
}

/// A subscriber receives exactly the messages emitted after its handshake
/// completed, in the order of emission: nothing of what was emitted
/// before, and everything of what was emitted after, as long as its writes
/// go well.
pub proof fn lemma_received_since_handshake(
    h: HubModel,
    before: Seq<HubInput>,
    after: Seq<HubInput>,
    id: i32,
)
    requires
        h.wf(),
        !h.subscribers.contains(id),
        never_subscribes(before, id),
        hub_run(h, before).has_room(),
        never_fails(after, id),
    ensures
        received(h, before + seq![HubInput::Subscribe(id)] + after, id) == emitted(
            hub_run(h, before + seq![HubInput::Subscribe(id)]),
            after,
        ),
{
    let shake = seq![HubInput::Subscribe(id)];
    let upto = before + shake;
    lemma_stranger_receives_nothing(h, before, id);
    lemma_hub_run_wf(h, before);
    let ready = hub_run(h, before);
    assert(upto.drop_last() =~= before);
    assert(upto.last() == HubInput::Subscribe(id));
    let joined = hub_run(h, upto);
    assert(joined == hub_step(ready, HubInput::Subscribe(id)));
    lemma_hub_step_wf(ready, HubInput::Subscribe(id));
    assert(joined.subscribers[ready.subscribers.len() as int] == id);
    assert(received(h, upto, id) =~= Seq::<SerdeEvent>::empty());
    lemma_hub_run_add(h, upto, after, id);
    lemma_subscriber_receives_all(joined, after, id);
    assert(Seq::<SerdeEvent>::empty() + received(joined, after, id) =~= received(
        joined,
        after,
        id,
    ));
}

/// The hub's channel parameters change with an event exactly where the
/// event announces channel parameters; they are then recorded under their
/// identifier.
pub proof fn lemma_channels_follow_updates(s: StateView, e: HubEvent)
    ensures
        e matches HubEvent::State(StateEvent::UpdateChannelParams(u)) ==> state_after_event(
            s,
            e,
        ).channels == s.channels.insert(u.id, u.params),
        !(e matches HubEvent::State(StateEvent::UpdateChannelParams(_))) ==> state_after_event(
            s,
            e,
        ).channels == s.channels,
{
}

/// The hub events among the actions of the receiver, in order.
pub open spec fn hub_events_of<F>(actions: Seq<Action<F>>) -> Seq<HubEvent>
    decreases actions.len(),
{
    if actions.len() == 0 {
        Seq::empty()
    } else {
        let earlier = hub_events_of(actions.drop_last());
        match actions.last() {
            Action::Hub(e) => earlier.push(e),
            _ => earlier,
        }
    }
}

/// The state after a sequence of events.
pub open spec fn state_after_events(s: StateView, events: Seq<HubEvent>) -> StateView
    decreases events.len(),
{
    if events.len() == 0 {
        s
    } else {
        state_after_event(state_after_events(s, events.drop_last()), events.last())
    }
}

/// The one version the hub speaks.
pub open spec fn http_1_1() -> HttpVersion {
    HttpVersion { major: 1, minor: 1 }
}

/// Once the receiver has processed a command that sets the control
/// frequency, and the hub the events the receiver sent on it, a request
/// for the control frequency is answered with the frequency that was set.
pub proof fn lemma_get_after_put<F>(r: ReceiverModel, h: HubModel, freq: u32)
    ensures
        ({
            let told = hub_events_of(r.on_command::<F>(RecvEvent::SetControlFreq(freq)).1);
            let after = HubModel { state: state_after_events(h.state, told), ..h };
            reply_of(after, http_1_1(), Method::Get, "/ctlfreq"@) == Ok::<Reply, StatusCode>(
                Reply::CtlFreq(freq),
            )
        }),
{
    let out = r.on_command::<F>(RecvEvent::SetControlFreq(freq)).1;
    let told = hub_events_of(out);
    let first = HubEvent::State(StateEvent::UpdateCtlFreq(freq));
    reveal_with_fuel(hub_events_of, 4);
    reveal_with_fuel(state_after_events, 4);
    if r.on_control() {
        assert(out =~= seq![
            Action::<F>::Hub(first),
            Action::Tune(freq),
            Action::Hub(HubEvent::UpdateCurFreq(freq)),
        ]);
        assert(out.drop_last() =~= seq![Action::<F>::Hub(first), Action::Tune(freq)]);
        assert(out.drop_last().drop_last() =~= seq![Action::<F>::Hub(first)]);
        assert(out.drop_last().drop_last().drop_last() =~= Seq::<Action<F>>::empty());
        assert(told =~= seq![first, HubEvent::UpdateCurFreq(freq)]);
        assert(told.drop_last() =~= seq![first]);
        assert(told.drop_last().drop_last() =~= Seq::<HubEvent>::empty());
    } else {
        assert(out =~= seq![Action::<F>::Hub(first)]);
        assert(out.drop_last() =~= Seq::<Action<F>>::empty());
        assert(told =~= seq![first]);
        assert(told.drop_last() =~= Seq::<HubEvent>::empty());
    }
    assert(state_after_events(h.state, told).ctlfreq == freq);
    reveal_strlit("/ctlfreq");
    reveal_strlit("/subscribe");
    assert("/ctlfreq"@.len() != "/subscribe"@.len());
}

} // verus!
