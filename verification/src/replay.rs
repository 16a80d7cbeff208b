//! Replay of saved baseband recordings.
//!
//! A replay drives the receiver with the decoder's messages alone: nothing
//! is tuned and nobody is told, only the voice is played.

use crate::hub::UNKNOWN_FREQ;
use crate::policy::{Policy, PolicyMode, ReceiverPolicy};
use crate::recv::{Action, Input, MessageEvent, Receiver, ReceiverModel, Stats};
use crate::recv_runs::{audio_of, lemma_audio_is_voice, run, voices_of};
use crate::talkgroups::TalkgroupSelection;
use vstd::prelude::*;

verus! {

/// The voice frames among what the decoder yielded sample by sample, in
/// order.
pub open spec fn voices_in<F>(yielded: Seq<Option<MessageEvent<F>>>) -> Seq<F>
    decreases yielded.len(),
{
    if yielded.len() == 0 {
        Seq::empty()
    } else {
        let earlier = voices_in(yielded.drop_last());
        match yielded.last() {
            Some(MessageEvent::VoiceFrame(f)) => earlier.push(f),
            _ => earlier,
        }
    }
}

/// The messages among what the decoder yielded sample by sample, as
/// inputs to the receiver, in order.
pub open spec fn messages_in<F>(yielded: Seq<Option<MessageEvent<F>>>) -> Seq<Input<F>>
    decreases yielded.len(),
{
    if yielded.len() == 0 {
        Seq::empty()
    } else {
        let earlier = messages_in(yielded.drop_last());
        match yielded.last() {
            Some(e) => earlier.push(Input::Message(e)),
            None => earlier,
        }
    }
}

/// A replay plays what the receiver would play when live: the voice
/// frames that the decoder yielded, as many, the same, in the same order.
pub proof fn lemma_replay_plays_as_live<F>(m: ReceiverModel, yielded: Seq<Option<MessageEvent<F>>>)
    ensures
        voices_in(yielded) == audio_of(run(m, messages_in(yielded)).1),
{
    lemma_voices_in(yielded);
    lemma_audio_is_voice(m, messages_in(yielded));
}

proof fn lemma_voices_in<F>(yielded: Seq<Option<MessageEvent<F>>>)
    ensures
        voices_in(yielded) == voices_of(messages_in(yielded)),
    decreases yielded.len(),
{
    if yielded.len() > 0 {
        lemma_voices_in(yielded.drop_last());
        match yielded.last() {
            Some(e) => {
                let earlier = messages_in(yielded.drop_last());
                assert(earlier.push(Input::Message(e)).drop_last() =~= earlier);
            },
            None => {},
        }
    }
}

/// The receiver a replay starts from: no control channel, no hopping, no
/// spans to time.
pub open spec fn replay_start() -> ReceiverModel {
    ReceiverModel {
        ctlfreq: UNKNOWN_FREQ,
        hopping: false,
        policy: Policy { tgselect: 0, watchdog: 0, pause: 0, counter: 0, mode: PolicyMode::Idle },
        seen: Seq::empty(),
        pending: Seq::empty(),
        channels: Map::empty(),
        stats: Stats { errors: 0, lost_events: 0, lost_frames: 0 },
    }
}

/// Plays a recording: a receiver that stays where it is.
pub struct ReplayReceiver {
    recv: Receiver,
}

impl View for ReplayReceiver {
    type V = ReceiverModel;

    closed spec fn view(&self) -> ReceiverModel {
        self.recv@
    }
}

impl ReplayReceiver {
    /// The receiver inside is well formed.
    pub closed spec fn wf(&self) -> bool {
        self.recv.wf()
    }

    /// A replay that has played nothing yet.
    pub fn new() -> (r: ReplayReceiver)
        ensures
            r.wf(),
            r@ == replay_start(),
    {
        let policy = ReceiverPolicy::new(0, 0, 0);
        ReplayReceiver {
            recv: Receiver::new(UNKNOWN_FREQ, false, policy, TalkgroupSelection::new()),
        }
    }

    /// Takes what the decoder yielded for a block of samples, one entry
    /// for each sample, and returns the voice frames to play: every voice
    /// frame that was yielded, in order, and nothing else. The receiver
    /// takes the messages in as it would when live.
    pub fn feed<F>(&mut self, yielded: Vec<Option<MessageEvent<F>>>) -> (frames: Vec<F>)
        requires
            old(self).wf(),
        ensures
            final(self).wf(),
            frames@ == voices_in(yielded@),
            final(self)@ == run(old(self)@, messages_in(yielded@)).0,
    {
        let mut frames: Vec<F> = Vec::new();
        let ghost all = yielded@;
        for event in it: yielded
            invariant
                it.seq() == all,
                self.wf(),
                frames@ == voices_in(all.take(it.index() as int)),
                self@ == run(old(self)@, messages_in(all.take(it.index() as int))).0,
        {
            let ghost before = all.take(it.index() as int);
            assert(all.take(it.index() + 1).drop_last() =~= before);
            match event {
                Some(e) => {
                    assert(messages_in(before).push(Input::Message(e)).drop_last() =~= messages_in(
                        before,
                    ));
                    let mut out = self.recv.handle(Input::Message(e));
                    match out.pop() {
                        Some(Action::Audio(f)) => {
                            frames.push(f);
                        },
                        _ => {},
                    }
                },
                None => {},
            }
        }
        assert(all.take(all.len() as int) =~= all);
        frames
    }

    /// Packets that could not be decoded so far.
    pub fn errors(&self) -> (n: u64)
        ensures
            n == self@.stats.errors,
    {
        self.recv.stats().errors
    }
}

} // verus!
