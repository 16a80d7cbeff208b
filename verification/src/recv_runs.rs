//! Runs of the receiver: what holds of every sequence of inputs.

use crate::channels::{resolve_in, ChannelParams};
use crate::event::{ChannelParamsUpdate, Grant, HubEvent, StateEvent, TsbkFields};
use crate::policy::PolicyMode;
use crate::recv::{
    candidate_of, grants_of, lemma_sifted, lemma_step_wf, sifted, tune_actions, Action, Input,
    MessageEvent, ReceiverModel, RecvEvent, RecvMode,
};
use crate::talkgroups::{best, distinct_groups, lemma_best, lemma_recorded, Candidate};
use vstd::prelude::*;

verus! {

/// The receiver after a sequence of inputs, and everything it wanted done
/// on the way, in order.
pub open spec fn run<F>(m: ReceiverModel, inputs: Seq<Input<F>>) -> (ReceiverModel, Seq<Action<F>>)
    decreases inputs.len(),
{
    if inputs.len() == 0 {
        (m, Seq::empty())
    } else {
        let (before, done) = run(m, inputs.drop_last());
        let (after, out) = before.step(inputs.last());
        (after, done + out)
    }
}

/// The voice frames among the actions, in order.
pub open spec fn audio_of<F>(actions: Seq<Action<F>>) -> Seq<F>
    decreases actions.len(),
{
    if actions.len() == 0 {
        Seq::empty()
    } else {
        let earlier = audio_of(actions.drop_last());
        match actions.last() {
            Action::Audio(f) => earlier.push(f),
            _ => earlier,
        }
    }
}

/// The voice frames among the inputs, in order.
pub open spec fn voices_of<F>(inputs: Seq<Input<F>>) -> Seq<F>
    decreases inputs.len(),
{
    if inputs.len() == 0 {
        Seq::empty()
    } else {
        let earlier = voices_of(inputs.drop_last());
        match inputs.last() {
            Input::Message(MessageEvent::VoiceFrame(f)) => earlier.push(f),
            _ => earlier,
        }
    }
}

/// Whether no action plays a voice frame.
pub open spec fn silent<F>(actions: Seq<Action<F>>) -> bool {
    forall|i: int| 0 <= i < actions.len() ==> !(#[trigger] actions[i] is Audio)
}

/// Whether no action tunes the hardware.
pub open spec fn still<F>(actions: Seq<Action<F>>) -> bool {
    forall|i: int| 0 <= i < actions.len() ==> !(#[trigger] actions[i] is Tune)
}

/// The frequency of the first tune among the actions, if there is one.
pub open spec fn first_tune<F>(actions: Seq<Action<F>>) -> Option<u32>
    decreases actions.len(),
{
    if actions.len() == 0 {
        None
    } else {
        match first_tune(actions.drop_last()) {
            Some(f) => Some(f),
            None => match actions.last() {
                Action::Tune(f) => Some(f),
                _ => None,
            },
        }
    }
}

proof fn lemma_audio_of_silent<F>(actions: Seq<Action<F>>)
    requires
        silent(actions),
    ensures
        audio_of(actions) == Seq::<F>::empty(),
    decreases actions.len(),
{
    if actions.len() > 0 {
        assert(actions[actions.len() - 1] == actions.last());
        assert forall|i: int| 0 <= i < actions.drop_last().len() implies !(
        #[trigger] actions.drop_last()[i] is Audio) by {
            assert(actions.drop_last()[i] == actions[i]);
        }
        lemma_audio_of_silent(actions.drop_last());
    }
}

proof fn lemma_audio_of_add<F>(a: Seq<Action<F>>, b: Seq<Action<F>>)
    ensures
        audio_of(a + b) == audio_of(a) + audio_of(b),
    decreases b.len(),
{
    if b.len() == 0 {
        assert(a + b =~= a);
        assert(audio_of(a) + audio_of(b) =~= audio_of(a));
    } else {
        assert((a + b).drop_last() =~= a + b.drop_last());
        assert((a + b).last() == b.last());
        lemma_audio_of_add(a, b.drop_last());
        match b.last() {
            Action::Audio(f) => {
                assert((audio_of(a) + audio_of(b.drop_last())).push(f) =~= audio_of(a) + audio_of(
                    b.drop_last(),
                ).push(f));
            },
            _ => {},
        }
    }
}

proof fn lemma_first_tune_still<F>(actions: Seq<Action<F>>)
    requires
        still(actions),
    ensures
        first_tune(actions).is_none(),
    decreases actions.len(),
{
    if actions.len() > 0 {
        assert(actions[actions.len() - 1] == actions.last());
        assert forall|i: int| 0 <= i < actions.drop_last().len() implies !(
        #[trigger] actions.drop_last()[i] is Tune) by {
            assert(actions.drop_last()[i] == actions[i]);
        }
        lemma_first_tune_still(actions.drop_last());
    }
}

proof fn lemma_first_tune_leads<F>(actions: Seq<Action<F>>, f: u32)
    requires
        actions.len() > 0,
        actions[0] == Action::<F>::Tune(f),
    ensures
        first_tune(actions) == Some(f),
    decreases actions.len(),
{
    if actions.len() > 1 {
        assert(actions.drop_last()[0] == actions[0]);
        lemma_first_tune_leads(actions.drop_last(), f);
    } else {
        assert(actions.drop_last().len() == 0);
        assert(first_tune(actions.drop_last()).is_none());
        assert(actions.last() == actions[0]);
    }
}

/// What one input makes the receiver play: the voice frame it carries, if
/// it carries one.
pub proof fn lemma_step_audio<F>(m: ReceiverModel, input: Input<F>)
    ensures
        audio_of(m.step(input).1) == (match input {
            Input::Message(MessageEvent::VoiceFrame(f)) => seq![f],
            _ => Seq::empty(),
        }),
{
    let out = m.step(input).1;
    match input {
        Input::Message(MessageEvent::VoiceFrame(f)) => {
            assert(out.drop_last() =~= Seq::<Action<F>>::empty());
            assert(audio_of(out.drop_last()) == Seq::<F>::empty());
            assert(out.last() == Action::Audio(f));
            assert(Seq::<F>::empty().push(f) =~= seq![f]);
        },
        _ => {
            assert(silent(out));
            lemma_audio_of_silent(out);
        },
    }
}

/// Whatever the inputs, the voice frames that the receiver plays are the
/// voice frames that the decoder yielded: as many, the same, in the same
/// order.
pub proof fn lemma_audio_is_voice<F>(m: ReceiverModel, inputs: Seq<Input<F>>)
    ensures
        audio_of(run(m, inputs).1) == voices_of(inputs),
    decreases inputs.len(),
{
    if inputs.len() > 0 {
        let (before, done) = run(m, inputs.drop_last());
        let (after, out) = before.step(inputs.last());
        lemma_audio_is_voice(m, inputs.drop_last());
        lemma_audio_of_add(done, out);
        lemma_step_audio(before, inputs.last());
        match inputs.last() {
            Input::Message(MessageEvent::VoiceFrame(f)) => {
                assert(audio_of(done) + seq![f] =~= audio_of(done).push(f));
            },
            _ => {
                assert(audio_of(done) + Seq::<F>::empty() =~= audio_of(done));
            },
        }
    }
}

/// Every run leaves a well-formed receiver well formed, and never changes
/// whether it may hop.
pub proof fn lemma_run_wf<F>(m: ReceiverModel, inputs: Seq<Input<F>>)
    requires
        m.wf(),
    ensures
        run(m, inputs).0.wf(),
        run(m, inputs).0.hopping == m.hopping,
    decreases inputs.len(),
{
    if inputs.len() > 0 {
        lemma_run_wf(m, inputs.drop_last());
        lemma_step_wf(run(m, inputs.drop_last()).0, inputs.last());
    }
}

/// A receiver that may not hop tunes only to its control frequency, and
/// its control frequency changes only by command.
pub proof fn lemma_step_without_hopping<F>(m: ReceiverModel, input: Input<F>)
    requires
        m.wf(),
        !m.hopping,
    ensures
        forall|k: int|
            0 <= k < m.step(input).1.len() ==> (#[trigger] m.step(input).1[k] matches Action::Tune(
                f,
            ) ==> f == m.step(input).0.ctlfreq),
        m.step(input).0.ctlfreq == m.ctlfreq || input == Input::<F>::Command(
            RecvEvent::SetControlFreq(m.step(input).0.ctlfreq),
        ),
{
}

/// Whether `freq` is the control frequency the receiver started with or
/// one that a command among the inputs supplied.
pub open spec fn is_control_freq<F>(m: ReceiverModel, inputs: Seq<Input<F>>, freq: u32) -> bool {
    freq == m.ctlfreq || exists|j: int|
        0 <= j < inputs.len() && #[trigger] inputs[j] == Input::<F>::Command(
            RecvEvent::SetControlFreq(freq),
        )
}

/// With hopping disabled, the receiver never tunes to anything but the
/// control frequency it was configured with or one that a command
/// supplied.
pub proof fn lemma_no_hop_without_hopping<F>(m: ReceiverModel, inputs: Seq<Input<F>>)
    requires
        m.wf(),
        !m.hopping,
    ensures
        forall|k: int|
            0 <= k < run(m, inputs).1.len() ==> (#[trigger] run(m, inputs).1[k] matches Action::Tune(
                f,
            ) ==> is_control_freq(m, inputs, f)),
        is_control_freq(m, inputs, run(m, inputs).0.ctlfreq),
    decreases inputs.len(),
{
    if inputs.len() > 0 {
        let prefix = inputs.drop_last();
        let last = inputs.last();
        let n = prefix.len() as int;
        let (before, done) = run(m, prefix);
        let (after, out) = before.step(last);
        lemma_no_hop_without_hopping(m, prefix);
        lemma_run_wf(m, prefix);
        lemma_step_without_hopping(before, last);
        assert(inputs[n] == last);
        assert forall|freq: u32| is_control_freq(m, prefix, freq) implies is_control_freq(
            m,
            inputs,
            freq,
        ) by {
            if freq != m.ctlfreq {
                let j = choose|j: int|
                    0 <= j < prefix.len() && #[trigger] prefix[j] == Input::<F>::Command(
                        RecvEvent::SetControlFreq(freq),
                    );
                assert(inputs[j] == prefix[j]);
            }
        }
        assert(is_control_freq(m, inputs, after.ctlfreq));
        let all = run(m, inputs).1;
        assert(all == done + out);
        assert forall|k: int| 0 <= k < all.len() implies (#[trigger] all[k] matches Action::Tune(f)
            ==> is_control_freq(m, inputs, f)) by {
            if k < done.len() {
                assert(all[k] == done[k]);
            } else {
                assert(all[k] == out[k - done.len()]);
            }
        }
    }
}

/// When the collecting span ends with a hop, the receiver tunes to the
/// frequency of a candidate it recorded during that span, and to that of
/// the best one. Candidates are held only while the span is open, so every
/// one of them was recorded within it.
pub proof fn lemma_hop_target_was_recorded<F>(m: ReceiverModel)
    requires
        m.wf(),
        m.mode() == RecvMode::Hopping,
    ensures
        m.hopping,
        forall|k: int|
            0 <= k < m.on_sample::<F>().1.len() ==> (#[trigger] m.on_sample::<F>().1[k] matches Action::Tune(
                f,
            ) ==> best(m.seen) matches Some(c) && c.freq == f && m.seen.contains(c)),
        first_tune(m.on_sample::<F>().1) matches Some(f) ==> m.on_sample::<F>().0.mode()
            == RecvMode::TrafficListening,
        m.on_sample::<F>().0.seen.len() == 0 || m.on_sample::<F>().0.seen == m.seen,
{
    lemma_best(m.seen);
    let out = m.on_sample::<F>().1;
    if first_tune(out).is_some() {
        if still(out) {
            lemma_first_tune_still(out);
        }
    }
}

/// Whether the input carries grant `g`.
pub open spec fn grants<F>(input: Input<F>, g: Grant) -> bool {
    input matches Input::Message(MessageEvent::TrunkingControl(t)) && grants_of(t).contains(g)
}

/// Whether `c` was recorded for grant `g`, which came in with input `j`
/// and resolved to the frequency of `c` under the channel parameters known
/// after input `k`.
pub open spec fn recorded_for<F>(
    m: ReceiverModel,
    inputs: Seq<Input<F>>,
    c: Candidate,
    j: int,
    g: Grant,
    k: int,
) -> bool {
    &&& 0 <= j <= k < inputs.len()
    &&& grants(inputs[j], g)
    &&& c == candidate_of(g, c.freq)
    &&& resolve_in(run(m, inputs.take(k + 1)).0.channels, g.channel) == Some(c.freq)
}

/// Whether `c` was recorded during the run: for a grant that came in
/// during the run, with the frequency that the grant's channel resolved to
/// during the run.
pub open spec fn recorded_during<F>(m: ReceiverModel, inputs: Seq<Input<F>>, c: Candidate) -> bool {
    exists|j: int, g: Grant, k: int| #[trigger] recorded_for(m, inputs, c, j, g, k)
}

/// Whether grant `g` came in during the run.
pub open spec fn granted_during<F>(inputs: Seq<Input<F>>, g: Grant) -> bool {
    exists|j: int| 0 <= j < inputs.len() && #[trigger] grants(inputs[j], g)
}

proof fn lemma_sifted_origin(
    pending: Seq<Grant>,
    channels: Map<u8, ChannelParams>,
    seen: Seq<Candidate>,
)
    requires
        distinct_groups(seen),
    ensures
        forall|c: Candidate| #[trigger]
            sifted(pending, channels, seen).1.contains(c) ==> seen.contains(c) || exists|
                i: int,
            |
                0 <= i < pending.len() && c == candidate_of(#[trigger] pending[i], c.freq)
                    && resolve_in(channels, pending[i].channel) == Some(c.freq),
        forall|g: Grant| #[trigger]
            sifted(pending, channels, seen).0.contains(g) ==> pending.contains(g),
    decreases pending.len(),
{
    if pending.len() > 0 {
        let init = pending.drop_last();
        let last = pending.last();
        let n = init.len() as int;
        lemma_sifted_origin(init, channels, seen);
        lemma_sifted(init, channels, seen);
        let (waiting, found) = sifted(init, channels, seen);
        let (waiting2, found2) = sifted(pending, channels, seen);
        assert(pending[n] == last);
        match resolve_in(channels, last.channel) {
            Some(freq) => {
                lemma_recorded(found, candidate_of(last, freq));
            },
            None => {},
        }
        assert forall|c: Candidate| #[trigger] found2.contains(c) implies seen.contains(c)
            || exists|i: int|
            0 <= i < pending.len() && c == candidate_of(#[trigger] pending[i], c.freq)
                && resolve_in(channels, pending[i].channel) == Some(c.freq) by {
            if found.contains(c) {
                if !seen.contains(c) {
                    let i = choose|i: int|
                        0 <= i < init.len() && c == candidate_of(#[trigger] init[i], c.freq)
                            && resolve_in(channels, init[i].channel) == Some(c.freq);
                    assert(pending[i] == init[i]);
                }
            } else {
                assert(c == candidate_of(pending[n], c.freq));
            }
        }
        assert forall|g: Grant| #[trigger] waiting2.contains(g) implies pending.contains(g) by {
            if waiting.contains(g) {
                let i = choose|i: int| 0 <= i < init.len() && init[i] == g;
                assert(pending[i] == g);
            } else {
                let i = choose|i: int| 0 <= i < waiting2.len() && waiting2[i] == g;
                if i < waiting.len() {
                    assert(waiting[i] == g);
                }
                assert(g == last);
            }
        }
    }
}

proof fn lemma_considered_origin(m: ReceiverModel, g: Grant)
    requires
        distinct_groups(m.seen),
    ensures
        m.considered(g).channels == m.channels,
        distinct_groups(m.considered(g).seen),
        forall|c: Candidate| #[trigger]
            m.considered(g).seen.contains(c) ==> m.seen.contains(c) || (c == candidate_of(
                g,
                c.freq,
            ) && resolve_in(m.channels, g.channel) == Some(c.freq)),
        forall|h: Grant| #[trigger]
            m.considered(g).pending.contains(h) ==> m.pending.contains(h) || h == g,
{
    match resolve_in(m.channels, g.channel) {
        Some(freq) => {
            lemma_recorded(m.seen, candidate_of(g, freq));
        },
        None => {
            let after = m.pending.push(g);
            assert forall|h: Grant| #[trigger] after.contains(h) implies m.pending.contains(h)
                || h == g by {
                let i = choose|i: int| 0 <= i < after.len() && after[i] == h;
                if i < m.pending.len() {
                    assert(m.pending[i] == h);
                }
            }
        },
    }
}

proof fn lemma_considered_all_origin(m: ReceiverModel, gs: Seq<Grant>)
    requires
        distinct_groups(m.seen),
    ensures
        m.considered_all(gs).channels == m.channels,
        distinct_groups(m.considered_all(gs).seen),
        forall|c: Candidate| #[trigger]
            m.considered_all(gs).seen.contains(c) ==> m.seen.contains(c) || exists|i: int|
                0 <= i < gs.len() && c == candidate_of(#[trigger] gs[i], c.freq) && resolve_in(
                    m.channels,
                    gs[i].channel,
                ) == Some(c.freq),
        forall|h: Grant| #[trigger]
            m.considered_all(gs).pending.contains(h) ==> m.pending.contains(h) || gs.contains(h),
    decreases gs.len(),
{
    if gs.len() > 0 {
        let init = gs.drop_last();
        let last = gs.last();
        let n = init.len() as int;
        lemma_considered_all_origin(m, init);
        let before = m.considered_all(init);
        lemma_considered_origin(before, last);
        let after = m.considered_all(gs);
        assert(gs[n] == last);
        assert forall|c: Candidate| #[trigger] after.seen.contains(c) implies m.seen.contains(c)
            || exists|i: int|
            0 <= i < gs.len() && c == candidate_of(#[trigger] gs[i], c.freq) && resolve_in(
                m.channels,
                gs[i].channel,
            ) == Some(c.freq) by {
            if before.seen.contains(c) {
                if !m.seen.contains(c) {
                    let i = choose|i: int|
                        0 <= i < init.len() && c == candidate_of(#[trigger] init[i], c.freq)
                            && resolve_in(m.channels, init[i].channel) == Some(c.freq);
                    assert(gs[i] == init[i]);
                }
            } else {
                assert(c == candidate_of(gs[n], c.freq));
            }
        }
        assert forall|h: Grant| #[trigger] after.pending.contains(h) implies m.pending.contains(h)
            || gs.contains(h) by {
            if before.pending.contains(h) {
                if !m.pending.contains(h) {
                    let i = choose|i: int| 0 <= i < init.len() && init[i] == h;
                    assert(gs[i] == h);
                }
            } else {
                assert(gs[n] == h);
            }
        }
    }
}

proof fn lemma_recorded_during_grows<F>(m: ReceiverModel, inputs: Seq<Input<F>>, c: Candidate)
    requires
        inputs.len() > 0,
        recorded_during(m, inputs.drop_last(), c),
    ensures
        recorded_during(m, inputs, c),
{
    let prefix = inputs.drop_last();
    let (j, g, k) = choose|j: int, g: Grant, k: int| #[trigger]
        recorded_for(m, prefix, c, j, g, k);
    assert(prefix[j] == inputs[j]);
    assert(prefix.take(k + 1) =~= inputs.take(k + 1));
    assert(recorded_for(m, inputs, c, j, g, k));
}

proof fn lemma_granted_during_grows<F>(inputs: Seq<Input<F>>, g: Grant)
    requires
        inputs.len() > 0,
        granted_during(inputs.drop_last(), g),
    ensures
        granted_during(inputs, g),
{
    let prefix = inputs.drop_last();
    let j = choose|j: int| 0 <= j < prefix.len() && #[trigger] grants(prefix[j], g);
    assert(prefix[j] == inputs[j]);
    assert(grants(inputs[j], g));
}

/// Whatever the receiver holds after a run that began with nothing
/// collected came in during the run: every candidate was recorded for a
/// grant of the run, with a frequency that the grant's channel resolved to
/// during the run, and every waiting grant is a grant of the run.
pub proof fn lemma_collected_during_run<F>(m: ReceiverModel, inputs: Seq<Input<F>>)
    requires
        m.wf(),
        m.mode() != RecvMode::Hopping,
    ensures
        forall|c: Candidate| #[trigger]
            run(m, inputs).0.seen.contains(c) ==> recorded_during(m, inputs, c),
        forall|g: Grant| #[trigger]
            run(m, inputs).0.pending.contains(g) ==> granted_during(inputs, g),
    decreases inputs.len(),
{
    if inputs.len() > 0 {
        let prefix = inputs.drop_last();
        let last = inputs.last();
        let n = prefix.len() as int;
        let before = run(m, prefix).0;
        let after = before.step(last).0;
        lemma_collected_during_run(m, prefix);
        lemma_run_wf(m, prefix);
        lemma_step_wf(before, last);
        assert(inputs[n] == last);
        assert(inputs.take(n + 1) =~= inputs);
        assert(run(m, inputs).0 == after);
        assert forall|c: Candidate| #[trigger] after.seen.contains(c) implies recorded_during(
            m,
            inputs,
            c,
        ) by {
            if before.seen.contains(c) {
                lemma_recorded_during_grows(m, inputs, c);
            } else {
                match last {
                    Input::Message(MessageEvent::TrunkingControl(t)) => {
                        match t {
                            TsbkFields::ChannelParamsUpdate(u) => {
                                let channels = before.channels.insert(u.id, u.params);
                                lemma_sifted_origin(before.pending, channels, before.seen);
                                let i = choose|i: int|
                                    0 <= i < before.pending.len() && c == candidate_of(
                                        #[trigger] before.pending[i],
                                        c.freq,
                                    ) && resolve_in(channels, before.pending[i].channel) == Some(
                                        c.freq,
                                    );
                                let g = before.pending[i];
                                assert(before.pending.contains(g));
                                lemma_granted_during_grows(inputs, g);
                                let j = choose|j: int|
                                    0 <= j < inputs.len() && #[trigger] grants(inputs[j], g);
                                assert(after.channels == channels);
                                assert(recorded_for(m, inputs, c, j, g, n));
                            },
                            _ => {
                                if before.collects() && grants_of(t).len() > 0 {
                                    let opened = ReceiverModel {
                                        policy: if before.policy.mode == PolicyMode::Idle {
                                            before.policy.entered(PolicyMode::Collecting)
                                        } else {
                                            before.policy
                                        },
                                        ..before
                                    };
                                    lemma_considered_all_origin(opened, grants_of(t));
                                    let i = choose|i: int|
                                        0 <= i < grants_of(t).len() && c == candidate_of(
                                            #[trigger] grants_of(t)[i],
                                            c.freq,
                                        ) && resolve_in(opened.channels, grants_of(t)[i].channel)
                                            == Some(c.freq);
                                    let g = grants_of(t)[i];
                                    assert(grants_of(t).contains(g));
                                    assert(grants(inputs[n], g));
                                    assert(after.channels == before.channels);
                                    assert(recorded_for(m, inputs, c, n, g, n));
                                }
                            },
                        }
                    },
                    Input::Message(_) => {},
                    Input::Command(_) => {},
                    Input::Sample => {
                        lemma_best(before.seen);
                    },
                }
            }
        }
        assert forall|g: Grant| #[trigger] after.pending.contains(g) implies granted_during(
            inputs,
            g,
        ) by {
            if before.pending.contains(g) {
                lemma_granted_during_grows(inputs, g);
            } else {
                match last {
                    Input::Message(MessageEvent::TrunkingControl(t)) => {
                        match t {
                            TsbkFields::ChannelParamsUpdate(u) => {
                                let channels = before.channels.insert(u.id, u.params);
                                lemma_sifted_origin(before.pending, channels, before.seen);
                            },
                            _ => {
                                if before.collects() && grants_of(t).len() > 0 {
                                    let opened = ReceiverModel {
                                        policy: if before.policy.mode == PolicyMode::Idle {
                                            before.policy.entered(PolicyMode::Collecting)
                                        } else {
                                            before.policy
                                        },
                                        ..before
                                    };
                                    lemma_considered_all_origin(opened, grants_of(t));
                                    assert(grants_of(t).contains(g));
                                    assert(grants(inputs[n], g));
                                }
                            },
                        }
                    },
                    Input::Message(_) => {},
                    Input::Command(_) => {},
                    Input::Sample => {
                        lemma_best(before.seen);
                    },
                }
            }
        }
    } else {
        assert(run(m, inputs).0 == m);
    }
}

/// With hopping enabled, a hop at the end of a collecting span goes to a
/// frequency that was recorded during that span: take any moment at which
/// nothing was collected, and any inputs since; if the next sample makes
/// the receiver hop, it hops to the frequency of a candidate recorded
/// since that moment.
pub proof fn lemma_hop_target_recorded_in_window<F>(m: ReceiverModel, inputs: Seq<Input<F>>)
    requires
        m.wf(),
        m.mode() != RecvMode::Hopping,
        run(m, inputs).0.mode() == RecvMode::Hopping,
    ensures
        forall|k: int|
            0 <= k < run(m, inputs).0.on_sample::<F>().1.len() ==> (
            #[trigger] run(m, inputs).0.on_sample::<F>().1[k] matches Action::Tune(f)
                ==> exists|c: Candidate| #[trigger]
                recorded_during(m, inputs, c) && c.freq == f),
{
    let at = run(m, inputs).0;
    lemma_run_wf(m, inputs);
    lemma_collected_during_run(m, inputs);
    lemma_hop_target_was_recorded::<F>(at);
    let out = at.on_sample::<F>().1;
    assert forall|k: int| 0 <= k < out.len() implies (#[trigger] out[k] matches Action::Tune(f)
        ==> exists|c: Candidate| #[trigger] recorded_during(m, inputs, c) && c.freq == f) by {
        match out[k] {
            Action::Tune(f) => {
                let c = best(at.seen).unwrap();
                assert(at.seen.contains(c));
                assert(recorded_during(m, inputs, c) && c.freq == f);
            },
            _ => {},
        }
    }
}

/// On a traffic channel, the first tune that an input causes goes to the
/// control frequency and ends the stay; an input that causes none leaves
/// the receiver on the traffic channel.
pub proof fn lemma_step_on_traffic<F>(m: ReceiverModel, input: Input<F>)
    requires
        m.wf(),
        m.mode() == RecvMode::TrafficListening,
    ensures
        first_tune(m.step(input).1) matches Some(f) ==> f == m.step(input).0.ctlfreq
            && m.step(input).0.mode() == RecvMode::ControlListening,
        first_tune(m.step(input).1).is_none() ==> m.step(input).0.mode()
            == RecvMode::TrafficListening,
        m.step(input).0.policy.watchdog == m.policy.watchdog,
{
    let (after, out) = m.step(input);
    match input {
        Input::Sample => {
            if m.policy.expires() {
                assert(out == tune_actions::<F>(m.ctlfreq));
                lemma_first_tune_leads(out, m.ctlfreq);
            } else {
                assert(still(out));
                lemma_first_tune_still(out);
            }
        },
        Input::Command(c) => {
            assert(still(out));
            lemma_first_tune_still(out);
        },
        Input::Message(e) => {
            assert(still(out));
            lemma_first_tune_still(out);
            match e {
                MessageEvent::TrunkingControl(t) => {
                    assert(!m.collects());
                },
                _ => {},
            }
        },
    }
}

/// The first tune of a run, with the control frequency the receiver had
/// right after the input that caused it.
pub open spec fn next_tune<F>(m: ReceiverModel, inputs: Seq<Input<F>>) -> Option<(u32, u32)>
    decreases inputs.len(),
{
    if inputs.len() == 0 {
        None
    } else {
        match next_tune(m, inputs.drop_last()) {
            Some(found) => Some(found),
            None => {
                let before = run(m, inputs.drop_last()).0;
                let (after, out) = before.step(inputs.last());
                match first_tune(out) {
                    Some(f) => Some((f, after.ctlfreq)),
                    None => None,
                }
            },
        }
    }
}

/// After a hop, whatever comes in, the next tune goes to the control
/// frequency. Until then the receiver stays on the traffic channel.
pub proof fn lemma_next_tune_after_hop<F>(m: ReceiverModel, inputs: Seq<Input<F>>)
    requires
        m.wf(),
        m.mode() == RecvMode::TrafficListening,
    ensures
        next_tune(m, inputs) matches Some((f, ctl)) ==> f == ctl,
        next_tune(m, inputs).is_none() ==> run(m, inputs).0.mode() == RecvMode::TrafficListening
            && run(m, inputs).0.policy.watchdog == m.policy.watchdog,
    decreases inputs.len(),
{
    if inputs.len() > 0 {
        lemma_next_tune_after_hop(m, inputs.drop_last());
        if next_tune(m, inputs.drop_last()).is_none() {
            lemma_run_wf(m, inputs.drop_last());
            lemma_step_on_traffic(run(m, inputs.drop_last()).0, inputs.last());
        }
    }
}

/// Whether no input carries a voice frame or ends a transmission.
pub open spec fn voiceless<F>(inputs: Seq<Input<F>>) -> bool {
    forall|j: int|
        0 <= j < inputs.len() ==> !(#[trigger] inputs[j] matches Input::Message(
            MessageEvent::VoiceFrame(_),
        )) && inputs[j] != Input::<F>::Message(MessageEvent::VoiceTerminator)
}

/// Number of samples among the inputs.
pub open spec fn samples_in<F>(inputs: Seq<Input<F>>) -> nat
    decreases inputs.len(),
{
    if inputs.len() == 0 {
        0
    } else {
        samples_in(inputs.drop_last()) + (if inputs.last() is Sample {
            1nat
        } else {
            0nat
        })
    }
}

proof fn lemma_watchdog_counts<F>(m: ReceiverModel, inputs: Seq<Input<F>>)
    requires
        m.wf(),
        m.policy.mode == PolicyMode::Locked,
        voiceless(inputs),
    ensures
        next_tune(m, inputs).is_none() ==> {
            let after = run(m, inputs).0;
            &&& after.policy.mode == PolicyMode::Locked
            &&& after.policy.watchdog == m.policy.watchdog
            &&& after.policy.counter == m.policy.counter + samples_in(inputs)
            &&& samples_in(inputs) > 0 ==> after.policy.counter < m.policy.watchdog
        },
    decreases inputs.len(),
{
    if inputs.len() > 0 {
        let prefix = inputs.drop_last();
        let last = inputs.last();
        assert(inputs[inputs.len() - 1] == last);
        assert forall|j: int| 0 <= j < prefix.len() implies !(#[trigger] prefix[j] matches Input::Message(
            MessageEvent::VoiceFrame(_),
        )) && prefix[j] != Input::<F>::Message(MessageEvent::VoiceTerminator) by {
            assert(prefix[j] == inputs[j]);
        }
        lemma_watchdog_counts(m, prefix);
        if next_tune(m, inputs).is_none() {
            let before = run(m, prefix).0;
            lemma_run_wf(m, prefix);
            lemma_step_on_traffic(before, last);
            let (after, out) = before.step(last);
            match last {
                Input::Sample => {
                    if before.policy.expires() {
                        lemma_first_tune_leads(out, before.ctlfreq);
                    }
                },
                Input::Command(c) => {},
                Input::Message(e) => {
                    match e {
                        MessageEvent::TrunkingControl(t) => {
                            assert(!before.collects());
                        },
                        _ => {},
                    }
                },
            }
        }
    }
}

/// If no voice frame arrives within the watchdog span after a hop, and
/// the transmission is not ended either, the receiver has tuned by the end
/// of the span, and it has tuned to the control frequency.
pub proof fn lemma_watchdog_returns_to_control<F>(m: ReceiverModel, inputs: Seq<Input<F>>)
    requires
        m.wf(),
        m.policy.mode == PolicyMode::Locked,
        m.policy.counter == 0,
        voiceless(inputs),
        samples_in(inputs) >= m.policy.watchdog,
        samples_in(inputs) >= 1,
    ensures
        next_tune(m, inputs) matches Some((f, ctl)) && f == ctl,
{
    lemma_watchdog_counts(m, inputs);
    lemma_next_tune_after_hop(m, inputs);
}

/// The hub is told of new channel parameters exactly when the decoder
/// yields a packet that announces them.
pub proof fn lemma_update_announced<F>(
    m: ReceiverModel,
    input: Input<F>,
    u: ChannelParamsUpdate,
)
    ensures
        m.step(input).1.contains(Action::Hub(HubEvent::State(StateEvent::UpdateChannelParams(u))))
            <==> input == Input::<F>::Message(
            MessageEvent::TrunkingControl(TsbkFields::ChannelParamsUpdate(u)),
        ),
{
    let out = m.step(input).1;
    let told = Action::<F>::Hub(HubEvent::State(StateEvent::UpdateChannelParams(u)));
    if input == Input::<F>::Message(
        MessageEvent::TrunkingControl(TsbkFields::ChannelParamsUpdate(u)),
    ) {
        assert(out[0] == told);
    }
    if out.contains(told) {
        let k = choose|k: int| 0 <= k < out.len() && out[k] == told;
        match input {
            Input::Message(MessageEvent::TrunkingControl(t)) => {
                match t {
                    TsbkFields::ChannelParamsUpdate(v) => {},
                    _ => {},
                }
            },
            _ => {},
        }
    }
}

} // verus!
