//! The receiver: follows the control channel, hops to traffic channels,
//! and comes back.
//!
//! The receiver is driven by three kinds of input: a command from the hub,
//! a message from the decoder, and the passing of one baseband sample. To
//! each it answers with the actions to perform, in order: tune the
//! hardware, play a voice frame, tell the hub.

use crate::channels::{resolve_in, ChannelParams, ChannelParamsMap};
use crate::event::{Grant, HubEvent, LinkControlFields, StateEvent, TsbkFields};
use crate::policy::{Policy, PolicyMode, ReceiverPolicy};
use crate::talkgroups::{
    best, distinct_groups, lemma_best, lemma_recorded, recorded, Candidate, TalkgroupSelection,
};
use vstd::prelude::*;

verus! {

/// Commands for the receiver.
#[derive(Clone, Copy, Debug, PartialEq, Eq, Structural)]
pub enum RecvEvent {
    /// Use this frequency as the control channel from now on.
    SetControlFreq(u32),
}

/// What the decoder yields. `F` is a voice frame.
#[derive(Debug, PartialEq, Eq)]
pub enum MessageEvent<F> {
    /// A packet could not be decoded.
    Error,
    /// A trunking control packet with a known opcode.
    TrunkingControl(TsbkFields),
    /// A link control word with a known opcode.
    LinkControl(LinkControlFields),
    /// A frame of voice.
    VoiceFrame(F),
    /// The transmission has ended.
    VoiceTerminator,
    /// Anything else.
    Other,
}

/// One input to the receiver.
#[derive(Debug, PartialEq, Eq)]
pub enum Input<F> {
    /// A command from the hub.
    Command(RecvEvent),
    /// A message from the decoder.
    Message(MessageEvent<F>),
    /// One baseband sample has passed.
    Sample,
}

/// One thing the receiver wants done.
#[derive(Debug, PartialEq, Eq)]
pub enum Action<F> {
    /// Tune the hardware to this frequency.
    Tune(u32),
    /// Play this voice frame.
    Audio(F),
    /// Send this event to the hub.
    Hub(HubEvent),
}

/// What went wrong so far without stopping the receiver. Each count stops
/// at the largest value it can hold.
#[derive(Clone, Copy, Debug, PartialEq, Eq, Structural)]
pub struct Stats {
    /// Packets that could not be decoded.
    pub errors: u64,
    /// Events that the hub did not take.
    pub lost_events: u64,
    /// Voice frames that the audio output did not take.
    pub lost_frames: u64,
}

/// One more, up to the largest value a count can hold.
pub open spec fn counted(n: u64) -> u64 {
    if n < u64::MAX {
        (n + 1) as u64
    } else {
        n
    }
}

fn count(n: u64) -> (m: u64)
    ensures
        m == counted(n),
{
    if n < u64::MAX {
        n + 1
    } else {
        n
    }
}

/// Where the receiver listens.
#[derive(Clone, Copy, Debug, PartialEq, Eq, Structural)]
pub enum RecvMode {
    /// On the control channel, with no hop in preparation.
    ControlListening,
    /// On the control channel, collecting talkgroups for a hop.
    Hopping,
    /// On a traffic channel.
    TrafficListening,
}

/// What a `Receiver` stands for.
pub struct ReceiverModel {
    /// Frequency of the control channel.
    pub ctlfreq: u32,
    /// Whether the receiver may hop to traffic channels.
    pub hopping: bool,
    /// Timing state.
    pub policy: Policy,
    /// Talkgroups collected for the hop in preparation.
    pub seen: Seq<Candidate>,
    /// Grants collected whose channel does not resolve yet.
    pub pending: Seq<Grant>,
    /// Channel parameters announced so far.
    pub channels: Map<u8, ChannelParams>,
    /// What went wrong so far.
    pub stats: Stats,
}

/// The grants that a trunking control packet carries, in packet order.
pub open spec fn grants_of(t: TsbkFields) -> Seq<Grant> {
    match t {
        TsbkFields::GroupVoiceGrant(g) => seq![g],
        TsbkFields::GroupVoiceUpdate(a, b) => seq![a, b],
        TsbkFields::GroupVoiceUpdateExplicit(g) => seq![g],
        _ => Seq::empty(),
    }
}

/// The candidate that a grant makes once its channel resolves to `freq`.
pub open spec fn candidate_of(g: Grant, freq: u32) -> Candidate {
    Candidate { talkgroup: g.talkgroup, freq, priority: g.priority }
}

/// Goes through the waiting grants in order: one whose channel resolves
/// becomes a candidate, the others keep waiting. Gives the grants still
/// waiting and the candidates.
pub open spec fn sifted(
    pending: Seq<Grant>,
    channels: Map<u8, ChannelParams>,
    seen: Seq<Candidate>,
) -> (Seq<Grant>, Seq<Candidate>)
    decreases pending.len(),
{
    if pending.len() == 0 {
        (Seq::empty(), seen)
    } else {
        let (waiting, found) = sifted(pending.drop_last(), channels, seen);
        let g = pending.last();
        match resolve_in(channels, g.channel) {
            Some(freq) => (waiting, recorded(found, candidate_of(g, freq))),
            None => (waiting.push(g), found),
        }
    }
}

/// The two actions of a change of frequency: tune, and tell the hub.
pub open spec fn tune_actions<F>(freq: u32) -> Seq<Action<F>> {
    seq![Action::Tune(freq), Action::Hub(HubEvent::UpdateCurFreq(freq))]
}

/// The three actions of a hop: tune, tell the hub the frequency, tell the
/// hub the talkgroup.
pub open spec fn hop_actions<F>(c: Candidate) -> Seq<Action<F>> {
    seq![
        Action::Tune(c.freq),
        Action::Hub(HubEvent::UpdateCurFreq(c.freq)),
        Action::Hub(HubEvent::UpdateTalkGroup(c.talkgroup)),
    ]
}

/// What the hub is told of a trunking control packet: the packet itself,
/// and before it the new channel parameters where it announces some.
pub open spec fn tsbk_actions<F>(t: TsbkFields) -> Seq<Action<F>> {
    match t {
        TsbkFields::ChannelParamsUpdate(u) => seq![
            Action::Hub(HubEvent::State(StateEvent::UpdateChannelParams(u))),
            Action::Hub(HubEvent::TrunkingControl(t)),
        ],
        _ => seq![Action::Hub(HubEvent::TrunkingControl(t))],
    }
}

impl ReceiverModel {
    /// Where the receiver listens.
    pub open spec fn mode(self) -> RecvMode {
        match self.policy.mode {
            PolicyMode::Idle => RecvMode::ControlListening,
            PolicyMode::Collecting => RecvMode::Hopping,
            PolicyMode::Locked => RecvMode::TrafficListening,
            PolicyMode::Paused => RecvMode::TrafficListening,
        }
    }

    /// Whether the receiver is tuned to the control channel.
    pub open spec fn on_control(self) -> bool {
        self.mode() != RecvMode::TrafficListening
    }

    /// The timing state is sound; talkgroups and grants are held only
    /// while a hop is in preparation, each talkgroup once; and a receiver
    /// that may not hop is never timing anything.
    pub open spec fn wf(self) -> bool {
        &&& self.policy.wf()
        &&& distinct_groups(self.seen)
        &&& self.policy.mode != PolicyMode::Collecting ==> self.seen.len() == 0
            && self.pending.len() == 0
        &&& !self.hopping ==> self.policy.mode == PolicyMode::Idle
    }

    /// The receiver back on the control channel with nothing collected.
    pub open spec fn reset(self) -> ReceiverModel {
        ReceiverModel {
            policy: self.policy.entered(PolicyMode::Idle),
            seen: Seq::empty(),
            pending: Seq::empty(),
            ..self
        }
    }

    /// The receiver after a grant was looked at: the talkgroup becomes a
    /// candidate where the channel resolves, else the grant waits.
    pub open spec fn considered(self, g: Grant) -> ReceiverModel {
        match resolve_in(self.channels, g.channel) {
            Some(freq) => ReceiverModel {
                seen: recorded(self.seen, candidate_of(g, freq)),
                ..self
            },
            None => ReceiverModel { pending: self.pending.push(g), ..self },
        }
    }

    /// The receiver after the grants were looked at in order.
    pub open spec fn considered_all(self, grants: Seq<Grant>) -> ReceiverModel
        decreases grants.len(),
    {
        if grants.len() == 0 {
            self
        } else {
            self.considered_all(grants.drop_last()).considered(grants.last())
        }
    }

    /// Whether grants are collected: the receiver may hop and is on the
    /// control channel.
    pub open spec fn collects(self) -> bool {
        self.hopping && self.on_control()
    }

    /// The receiver after a command, and what it wants done.
    ///
    /// A new control frequency is always taken over and announced to the
    /// hub. On the control channel the hardware is retuned at once and
    /// whatever was collected is dropped; on a traffic channel the new
    /// frequency is used when the receiver returns.
    pub open spec fn on_command<F>(self, c: RecvEvent) -> (ReceiverModel, Seq<Action<F>>) {
        match c {
            RecvEvent::SetControlFreq(f) => {
                let announce = seq![Action::Hub(HubEvent::State(StateEvent::UpdateCtlFreq(f)))];
                if self.on_control() {
                    (ReceiverModel { ctlfreq: f, ..self.reset() }, announce + tune_actions(f))
                } else {
                    (ReceiverModel { ctlfreq: f, ..self }, announce)
                }
            },
        }
    }

    /// The receiver after a trunking control packet.
    ///
    /// Announced channel parameters are recorded, and waiting grants that
    /// resolve with them become candidates. Grants are collected while the
    /// receiver may hop and is on the control channel; the first one opens
    /// the collecting span.
    pub open spec fn after_tsbk(self, t: TsbkFields) -> ReceiverModel {
        match t {
            TsbkFields::ChannelParamsUpdate(u) => {
                let channels = self.channels.insert(u.id, u.params);
                let (pending, seen) = sifted(self.pending, channels, self.seen);
                ReceiverModel { channels, pending, seen, ..self }
            },
            _ => if self.collects() && grants_of(t).len() > 0 {
                ReceiverModel {
                    policy: if self.policy.mode == PolicyMode::Idle {
                        self.policy.entered(PolicyMode::Collecting)
                    } else {
                        self.policy
                    },
                    ..self
                }.considered_all(grants_of(t))
            } else {
                self
            },
        }
    }

    /// The timing state after a voice frame: on a traffic channel the
    /// watchdog starts anew, and a paused transmission is resumed.
    pub open spec fn policy_after_voice(self) -> Policy {
        match self.policy.mode {
            PolicyMode::Locked => self.policy.entered(PolicyMode::Locked),
            PolicyMode::Paused => self.policy.entered(PolicyMode::Locked),
            _ => self.policy,
        }
    }

    /// The timing state after the end of a transmission: a followed
    /// transmission is paused.
    pub open spec fn policy_after_terminator(self) -> Policy {
        match self.policy.mode {
            PolicyMode::Locked => self.policy.entered(PolicyMode::Paused),
            _ => self.policy,
        }
    }

    /// The receiver after an action could not be handed on, and whether
    /// it has to stop. The hub and the audio output may lag: what they do
    /// not take is counted and dropped. Without the tuner the receiver
    /// cannot go on.
    pub open spec fn after_loss<F>(self, a: Action<F>) -> (ReceiverModel, bool) {
        match a {
            Action::Tune(_) => (self, true),
            Action::Audio(_) => (
                ReceiverModel {
                    stats: Stats { lost_frames: counted(self.stats.lost_frames), ..self.stats },
                    ..self
                },
                false,
            ),
            Action::Hub(_) => (
                ReceiverModel {
                    stats: Stats { lost_events: counted(self.stats.lost_events), ..self.stats },
                    ..self
                },
                false,
            ),
        }
    }

    /// The receiver after a message of the decoder, and what it wants
    /// done. Every voice frame is played, whatever the mode.
    pub open spec fn on_message<F>(self, e: MessageEvent<F>) -> (ReceiverModel, Seq<Action<F>>) {
        match e {
            MessageEvent::Error => (
                ReceiverModel {
                    stats: Stats { errors: counted(self.stats.errors), ..self.stats },
                    ..self
                },
                Seq::empty(),
            ),
            MessageEvent::TrunkingControl(t) => (self.after_tsbk(t), tsbk_actions(t)),
            MessageEvent::LinkControl(lc) => (self, seq![Action::Hub(HubEvent::LinkControl(lc))]),
            MessageEvent::VoiceFrame(f) => (
                ReceiverModel { policy: self.policy_after_voice(), ..self },
                seq![Action::Audio(f)],
            ),
            MessageEvent::VoiceTerminator => (
                ReceiverModel { policy: self.policy_after_terminator(), ..self },
                Seq::empty(),
            ),
            MessageEvent::Other => (self, Seq::empty()),
        }
    }

    /// The receiver after one more sample, and what it wants done.
    ///
    /// When the collecting span ends, the receiver hops to the best
    /// candidate, or stays on the control channel where there is none;
    /// what was collected is dropped either way. When the watchdog or the
    /// pause runs out, the receiver returns to the control channel.
    pub open spec fn on_sample<F>(self) -> (ReceiverModel, Seq<Action<F>>) {
        let (policy, expired) = self.policy.ticked();
        match expired {
            None => (ReceiverModel { policy, ..self }, Seq::empty()),
            Some(PolicyMode::Collecting) => match best(self.seen) {
                None => (self.reset(), Seq::empty()),
                Some(c) => (
                    ReceiverModel { policy: policy.entered(PolicyMode::Locked), ..self.reset() },
                    hop_actions(c),
                ),
            },
            Some(_) => (ReceiverModel { policy, ..self }, tune_actions(self.ctlfreq)),
        }
    }

    /// The receiver after an input, and what it wants done.
    pub open spec fn step<F>(self, input: Input<F>) -> (ReceiverModel, Seq<Action<F>>) {
        match input {
            Input::Command(c) => self.on_command(c),
            Input::Message(e) => self.on_message(e),
            Input::Sample => self.on_sample(),
        }
    }
}

/// Sifting keeps the talkgroups distinct.
pub proof fn lemma_sifted(
    pending: Seq<Grant>,
    channels: Map<u8, ChannelParams>,
    seen: Seq<Candidate>,
)
    requires
        distinct_groups(seen),
    ensures
        distinct_groups(sifted(pending, channels, seen).1),
        pending.len() == 0 ==> sifted(pending, channels, seen) == (Seq::<Grant>::empty(), seen),
    decreases pending.len(),
{
    if pending.len() > 0 {
        lemma_sifted(pending.drop_last(), channels, seen);
        let (waiting, found) = sifted(pending.drop_last(), channels, seen);
        let g = pending.last();
        match resolve_in(channels, g.channel) {
            Some(freq) => {
                lemma_recorded(found, candidate_of(g, freq));
            },
            None => {},
        }
    }
}

/// Looking at grants keeps a receiver well formed while it collects.
pub proof fn lemma_considered_all(m: ReceiverModel, grants: Seq<Grant>)
    requires
        m.wf(),
        m.policy.mode == PolicyMode::Collecting,
    ensures
        m.considered_all(grants).wf(),
        m.considered_all(grants).policy == m.policy,
        m.considered_all(grants).ctlfreq == m.ctlfreq,
        m.considered_all(grants).hopping == m.hopping,
        m.considered_all(grants).channels == m.channels,
        m.considered_all(grants).stats == m.stats,
    decreases grants.len(),
{
    if grants.len() > 0 {
        lemma_considered_all(m, grants.drop_last());
        let before = m.considered_all(grants.drop_last());
        let g = grants.last();
        match resolve_in(before.channels, g.channel) {
            Some(freq) => {
                lemma_recorded(before.seen, candidate_of(g, freq));
            },
            None => {},
        }
    }
}

/// Looking at one grant, written out.
proof fn lemma_considered_one(m: ReceiverModel, g: Grant)
    ensures
        m.considered_all(seq![g]) == m.considered(g),
{
    assert(seq![g].drop_last() =~= Seq::<Grant>::empty());
    assert(m.considered_all(Seq::<Grant>::empty()) == m);
}

/// Looking at two grants, written out.
proof fn lemma_considered_two(m: ReceiverModel, a: Grant, b: Grant)
    ensures
        m.considered_all(seq![a, b]) == m.considered(a).considered(b),
{
    assert(seq![a, b].drop_last() =~= seq![a]);
    lemma_considered_one(m, a);
}

/// Every input leaves a well-formed receiver well formed, and never
/// changes whether it may hop.
pub proof fn lemma_step_wf<F>(m: ReceiverModel, input: Input<F>)
    requires
        m.wf(),
    ensures
        m.step(input).0.wf(),
        m.step(input).0.hopping == m.hopping,
{
    match input {
        Input::Command(c) => {},
        Input::Message(e) => {
            match e {
                MessageEvent::TrunkingControl(t) => {
                    match t {
                        TsbkFields::ChannelParamsUpdate(u) => {
                            lemma_sifted(m.pending, m.channels.insert(u.id, u.params), m.seen);
                        },
                        _ => {
                            if m.collects() && grants_of(t).len() > 0 {
                                let opened = ReceiverModel {
                                    policy: if m.policy.mode == PolicyMode::Idle {
                                        m.policy.entered(PolicyMode::Collecting)
                                    } else {
                                        m.policy
                                    },
                                    ..m
                                };
                                lemma_considered_all(opened, grants_of(t));
                            }
                        },
                    }
                },
                _ => {},
            }
        },
        Input::Sample => {
            lemma_best(m.seen);
        },
    }
}

/// The receiver.
pub struct Receiver {
    ctlfreq: u32,
    hopping: bool,
    policy: ReceiverPolicy,
    talkgroups: TalkgroupSelection,
    pending: Vec<Grant>,
    channels: ChannelParamsMap,
    stats: Stats,
}

impl View for Receiver {
    type V = ReceiverModel;

    closed spec fn view(&self) -> ReceiverModel {
        ReceiverModel {
            ctlfreq: self.ctlfreq,
            hopping: self.hopping,
            policy: self.policy@,
            seen: self.talkgroups@,
            pending: self.pending@,
            channels: self.channels@,
            stats: self.stats,
        }
    }
}

impl Receiver {
    /// The table of channel parameters is whole, and what the receiver
    /// stands for is well formed.
    pub closed spec fn wf(&self) -> bool {
        self.channels.wf() && self@.wf()
    }

    /// A well-formed receiver stands for a well-formed model.
    pub proof fn lemma_wf(&self)
        requires
            self.wf(),
        ensures
            self@.wf(),
    {
    }

    /// A receiver for the control channel at `freq`. It starts on the
    /// control channel with nothing collected and no channel parameters
    /// known, whatever state `policy` and `talkgroups` come in; of
    /// `policy` it keeps the three spans.
    pub fn new(
        freq: u32,
        hopping: bool,
        policy: ReceiverPolicy,
        talkgroups: TalkgroupSelection,
    ) -> (r: Receiver)
        ensures
            r.wf(),
            r@ == (ReceiverModel {
                ctlfreq: freq,
                hopping,
                policy: policy@.entered(PolicyMode::Idle),
                seen: Seq::empty(),
                pending: Seq::empty(),
                channels: Map::empty(),
                stats: Stats { errors: 0, lost_events: 0, lost_frames: 0 },
            }),
    {
        let mut policy = policy;
        let mut talkgroups = talkgroups;
        policy.enter(PolicyMode::Idle);
        talkgroups.clear();
        Receiver {
            ctlfreq: freq,
            hopping,
            policy,
            talkgroups,
            pending: Vec::new(),
            channels: ChannelParamsMap::new(),
            stats: Stats { errors: 0, lost_events: 0, lost_frames: 0 },
        }
    }

    /// Frequency of the control channel.
    pub fn ctlfreq(&self) -> (f: u32)
        ensures
            f == self@.ctlfreq,
    {
        self.ctlfreq
    }

    /// What went wrong so far.
    pub fn stats(&self) -> (stats: Stats)
        ensures
            stats == self@.stats,
    {
        self.stats
    }

    /// Takes note that `action` could not be handed on, and says whether
    /// the receiver has to stop: it has to where the tuner did not take a
    /// frequency; what the hub or the audio output did not take is counted
    /// and dropped.
    pub fn undelivered<F>(&mut self, action: &Action<F>) -> (fatal: bool)
        requires
            old(self).wf(),
        ensures
            final(self).wf(),
            final(self)@ == old(self)@.after_loss(*action).0,
            fatal == old(self)@.after_loss(*action).1,
    {
        match action {
            Action::Tune(_) => true,
            Action::Audio(_) => {
                self.stats.lost_frames = count(self.stats.lost_frames);
                false
            },
            Action::Hub(_) => {
                self.stats.lost_events = count(self.stats.lost_events);
                false
            },
        }
    }

    /// Where the receiver listens.
    pub fn mode(&self) -> (m: RecvMode)
        ensures
            m == self@.mode(),
    {
        match self.policy.mode() {
            PolicyMode::Idle => RecvMode::ControlListening,
            PolicyMode::Collecting => RecvMode::Hopping,
            PolicyMode::Locked => RecvMode::TrafficListening,
            PolicyMode::Paused => RecvMode::TrafficListening,
        }
    }

    /// What the receiver wants done when it starts: announce the control
    /// frequency and tune to it.
    pub fn init<F>(&self) -> (out: Vec<Action<F>>)
        ensures
            out@ == seq![
                Action::<F>::Hub(HubEvent::State(StateEvent::UpdateCtlFreq(self@.ctlfreq))),
            ] + tune_actions::<F>(self@.ctlfreq),
    {
        let mut out: Vec<Action<F>> = Vec::new();
        out.push(Action::Hub(HubEvent::State(StateEvent::UpdateCtlFreq(self.ctlfreq))));
        out.push(Action::Tune(self.ctlfreq));
        out.push(Action::Hub(HubEvent::UpdateCurFreq(self.ctlfreq)));
        assert(out@ =~= seq![
            Action::<F>::Hub(HubEvent::State(StateEvent::UpdateCtlFreq(self@.ctlfreq))),
        ] + tune_actions::<F>(self@.ctlfreq));
        out
    }

    /// Takes one input and returns what the receiver wants done, in
    /// order.
    pub fn handle<F>(&mut self, input: Input<F>) -> (out: Vec<Action<F>>)
        requires
            old(self).wf(),
        ensures
            final(self).wf(),
            final(self)@ == old(self)@.step(input).0,
            out@ == old(self)@.step(input).1,
    {
        proof {
            lemma_step_wf(self@, input);
        }
        match input {
            Input::Command(c) => self.handle_command(c),
            Input::Message(e) => self.handle_message(e),
            Input::Sample => self.handle_sample(),
        }
    }

    fn reset(&mut self)
        requires
            old(self).channels.wf(),
        ensures
            final(self).channels.wf(),
            final(self)@ == old(self)@.reset(),
    {
        self.policy.enter(PolicyMode::Idle);
        self.talkgroups.clear();
        self.pending.clear();
    }

    fn handle_command<F>(&mut self, c: RecvEvent) -> (out: Vec<Action<F>>)
        requires
            old(self).wf(),
        ensures
            final(self).channels.wf(),
            final(self)@ == old(self)@.on_command::<F>(c).0,
            out@ == old(self)@.on_command::<F>(c).1,
    {
        let mut out: Vec<Action<F>> = Vec::new();
        match c {
            RecvEvent::SetControlFreq(f) => {
                out.push(Action::Hub(HubEvent::State(StateEvent::UpdateCtlFreq(f))));
                let on_control = match self.policy.mode() {
                    PolicyMode::Idle => true,
                    PolicyMode::Collecting => true,
                    _ => false,
                };
                if on_control {
                    self.reset();
                    out.push(Action::Tune(f));
                    out.push(Action::Hub(HubEvent::UpdateCurFreq(f)));
                }
                self.ctlfreq = f;
                assert(out@ =~= old(self)@.on_command::<F>(c).1);
            },
        }
        out
    }

    fn consider(&mut self, g: Grant)
        requires
            old(self).channels.wf(),
            old(self).talkgroups.wf(),
        ensures
            final(self).channels.wf(),
            final(self).talkgroups.wf(),
            final(self)@ == old(self)@.considered(g),
    {
        match self.channels.resolve(g.channel) {
            Some(freq) => {
                self.talkgroups.record(g.talkgroup, freq, g.priority);
            },
            None => {
                self.pending.push(g);
            },
        }
    }

    fn sift(&mut self)
        requires
            old(self).channels.wf(),
            old(self).talkgroups.wf(),
        ensures
            final(self).channels.wf(),
            final(self)@ == (ReceiverModel {
                pending: sifted(old(self)@.pending, old(self)@.channels, old(self)@.seen).0,
                seen: sifted(old(self)@.pending, old(self)@.channels, old(self)@.seen).1,
                ..old(self)@
            }),
    {
        let mut waiting: Vec<Grant> = Vec::new();
        let mut i: usize = 0;
        while i < self.pending.len()
            invariant
                i <= self.pending@.len(),
                self.channels.wf(),
                self.talkgroups.wf(),
                self.pending@ == old(self)@.pending,
                self.channels@ == old(self)@.channels,
                self.ctlfreq == old(self).ctlfreq,
                self.hopping == old(self).hopping,
                self.policy@ == old(self).policy@,
                self.stats == old(self).stats,
                (waiting@, self.talkgroups@) == sifted(
                    self.pending@.take(i as int),
                    self.channels@,
                    old(self)@.seen,
                ),
            decreases self.pending@.len() - i,
        {
            let g = self.pending[i];
            assert(self.pending@.take(i + 1).drop_last() =~= self.pending@.take(i as int));
            match self.channels.resolve(g.channel) {
                Some(freq) => {
                    self.talkgroups.record(g.talkgroup, freq, g.priority);
                },
                None => {
                    waiting.push(g);
                },
            }
            i = i + 1;
        }
        assert(self.pending@.take(i as int) =~= self.pending@);
        self.pending = waiting;
    }

    fn handle_tsbk(&mut self, t: TsbkFields)
        requires
            old(self).wf(),
        ensures
            final(self).channels.wf(),
            final(self)@ == old(self)@.after_tsbk(t),
    {
        match t {
            TsbkFields::ChannelParamsUpdate(u) => {
                self.channels.update(u.id, u.params);
                self.sift();
            },
            TsbkFields::GroupVoiceGrant(g) => {
                if self.collecting() {
                    proof {
                        lemma_considered_one(self@, g);
                    }
                    self.consider(g);
                }
            },
            TsbkFields::GroupVoiceUpdateExplicit(g) => {
                if self.collecting() {
                    proof {
                        lemma_considered_one(self@, g);
                    }
                    self.consider(g);
                }
            },
            TsbkFields::GroupVoiceUpdate(a, b) => {
                if self.collecting() {
                    proof {
                        lemma_considered_two(self@, a, b);
                    }
                    self.consider(a);
                    self.consider(b);
                }
            },
            _ => {
                assert(grants_of(t).len() == 0);
            },
        }
    }

    /// Whether grants are collected; opens the collecting span where they
    /// are and it is not open yet.
    fn collecting(&mut self) -> (yes: bool)
        requires
            old(self).wf(),
        ensures
            final(self).channels.wf(),
            final(self).talkgroups.wf(),
            yes == old(self)@.collects(),
            final(self)@ == (if yes {
                ReceiverModel {
                    policy: if old(self)@.policy.mode == PolicyMode::Idle {
                        old(self)@.policy.entered(PolicyMode::Collecting)
                    } else {
                        old(self)@.policy
                    },
                    ..old(self)@
                }
            } else {
                old(self)@
            }),
    {
        if !self.hopping {
            return false;
        }
        match self.policy.mode() {
            PolicyMode::Idle => {
                self.policy.enter(PolicyMode::Collecting);
                true
            },
            PolicyMode::Collecting => true,
            _ => false,
        }
    }

    fn handle_message<F>(&mut self, e: MessageEvent<F>) -> (out: Vec<Action<F>>)
        requires
            old(self).wf(),
        ensures
            final(self).channels.wf(),
            final(self)@ == old(self)@.on_message(e).0,
            out@ == old(self)@.on_message(e).1,
    {
        let mut out: Vec<Action<F>> = Vec::new();
        match e {
            MessageEvent::Error => {
                self.stats.errors = count(self.stats.errors);
            },
            MessageEvent::TrunkingControl(t) => {
                if let TsbkFields::ChannelParamsUpdate(u) = t {
                    out.push(Action::Hub(HubEvent::State(StateEvent::UpdateChannelParams(u))));
                }
                out.push(Action::Hub(HubEvent::TrunkingControl(t)));
                self.handle_tsbk(t);
            },
            MessageEvent::LinkControl(lc) => {
                out.push(Action::Hub(HubEvent::LinkControl(lc)));
            },
            MessageEvent::VoiceFrame(f) => {
                match self.policy.mode() {
                    PolicyMode::Locked => {
                        self.policy.enter(PolicyMode::Locked);
                    },
                    PolicyMode::Paused => {
                        self.policy.enter(PolicyMode::Locked);
                    },
                    _ => {},
                }
                out.push(Action::Audio(f));
            },
            MessageEvent::VoiceTerminator => {
                if let PolicyMode::Locked = self.policy.mode() {
                    self.policy.enter(PolicyMode::Paused);
                }
            },
            MessageEvent::Other => {},
        }
        assert(out@ =~= old(self)@.on_message(e).1);
        out
    }

    fn handle_sample<F>(&mut self) -> (out: Vec<Action<F>>)
        requires
            old(self).wf(),
        ensures
            final(self).channels.wf(),
            final(self)@ == old(self)@.on_sample::<F>().0,
            out@ == old(self)@.on_sample::<F>().1,
    {
        let mut out: Vec<Action<F>> = Vec::new();
        match self.policy.tick() {
            None => {},
            Some(PolicyMode::Collecting) => {
                let choice = self.talkgroups.pick();
                self.reset();
                if let Some(c) = choice {
                    self.policy.enter(PolicyMode::Locked);
                    out.push(Action::Tune(c.freq));
                    out.push(Action::Hub(HubEvent::UpdateCurFreq(c.freq)));
                    out.push(Action::Hub(HubEvent::UpdateTalkGroup(c.talkgroup)));
                }
            },
            Some(_) => {
                out.push(Action::Tune(self.ctlfreq));
                out.push(Action::Hub(HubEvent::UpdateCurFreq(self.ctlfreq)));
            },
        }
        assert(out@ =~= old(self)@.on_sample::<F>().1);
        out
    }
}

} // verus!
