//! The event hub: what it remembers, what it answers, whom it serves.
//!
//! The hub keeps a copy of the receiver's visible state, turns each event
//! into the messages its subscribers get, and decides what becomes of an
//! HTTP request. It never touches a socket: a subscriber is a descriptor,
//! and the caller reports which writes went wrong.

use crate::channels::{resolve_in, Channel, ChannelParams, ChannelParamsMap};
use crate::event::{
    AdjacentSite, AltControlChannel, EventName, HubEvent, LinkControlFields, Payload,
    RfssStatusBroadcast, SerdeAdjacentSite, SerdeAltControl, SerdeEvent, SerdeLocRegResponse,
    SerdeNetworkStatus, SerdeRfssStatus, SerdeUnitDeregAck, SerdeUnitRegResponse, StateEvent,
    TsbkFields,
};
use crate::http::{plan, plan_of, HttpVersion, Method, Plan, StatusCode};
use crate::subscribers::{subscribers_wf, survivors, Subscribers, MAX_SUBSCRIBERS};
use vstd::prelude::*;

verus! {

/// Control channel frequency before any has been committed.
pub const UNKNOWN_FREQ: u32 = 0xffff_ffff;

/// What a `State` stands for.
pub struct StateView {
    /// Current control channel frequency.
    pub ctlfreq: u32,
    /// Channel parameters for the current site.
    pub channels: Map<u8, ChannelParams>,
}

/// Holds a copy of certain state held in other tasks.
pub struct State {
    /// Current control channel frequency.
    ctlfreq: u32,
    /// Channel parameters for current site.
    channels: ChannelParamsMap,
}

impl View for State {
    type V = StateView;

    closed spec fn view(&self) -> StateView {
        StateView { ctlfreq: self.ctlfreq, channels: self.channels@ }
    }
}

/// The state after a state event: a committed control frequency replaces
/// the frequency and leaves the channel parameters alone; announced
/// channel parameters are recorded under their identifier and leave the
/// frequency alone.
pub open spec fn state_after(s: StateView, e: StateEvent) -> StateView {
    match e {
        StateEvent::UpdateCtlFreq(f) => StateView { ctlfreq: f, channels: s.channels },
        StateEvent::UpdateChannelParams(u) => StateView {
            ctlfreq: s.ctlfreq,
            channels: s.channels.insert(u.id, u.params),
        },
    }
}

/// The state after any hub event: only state events change it.
pub open spec fn state_after_event(s: StateView, e: HubEvent) -> StateView {
    match e {
        HubEvent::State(se) => state_after(s, se),
        _ => s,
    }
}

impl State {
    /// The table of channel parameters is whole.
    pub closed spec fn wf(&self) -> bool {
        self.channels.wf()
    }

    /// Current control channel frequency.
    pub fn ctlfreq(&self) -> (f: u32)
        ensures
            f == self@.ctlfreq,
    {
        self.ctlfreq
    }

    /// The receive frequency of `ch` under the channel parameters known,
    /// if it resolves.
    pub fn resolve(&self, ch: Channel) -> (f: Option<u32>)
        requires
            self.wf(),
        ensures
            f == resolve_in(self@.channels, ch),
    {
        self.channels.resolve(ch)
    }

    /// The state before anything is known: no control frequency, no
    /// channel parameters.
    pub fn new() -> (s: State)
        ensures
            s.wf(),
            s@ == (StateView { ctlfreq: UNKNOWN_FREQ, channels: Map::empty() }),
    {
        State { ctlfreq: UNKNOWN_FREQ, channels: ChannelParamsMap::new() }
    }

    /// Update the state based on the given event.
    pub fn update(&mut self, e: StateEvent)
        requires
            old(self).wf(),
        ensures
            final(self).wf(),
            final(self)@ == state_after(old(self)@, e),
    {
        match e {
            StateEvent::UpdateCtlFreq(f) => {
                self.ctlfreq = f;
            },
            StateEvent::UpdateChannelParams(u) => {
                self.channels.update(u.id, u.params);
            },
        }
    }
}

impl Default for State {
    fn default() -> (s: State)
        ensures
            s.wf(),
            s@ == (StateView { ctlfreq: UNKNOWN_FREQ, channels: Map::empty() }),
    {
        State::new()
    }
}

/// The one message with the given name and payload.
pub open spec fn one(event: EventName, payload: Payload) -> Seq<SerdeEvent> {
    seq![SerdeEvent { event, payload }]
}

/// The message for a site status.
pub open spec fn rfss_status_messages(s: RfssStatusBroadcast) -> Seq<SerdeEvent> {
    one(EventName::RfssStatus, Payload::RfssStatus(SerdeRfssStatus::of(s)))
}

/// The message for one alternative control channel: one if the channel
/// resolves to a frequency, none otherwise.
pub open spec fn alt_messages(
    s: AltControlChannel,
    ch: Channel,
    channels: Map<u8, ChannelParams>,
) -> Seq<SerdeEvent> {
    match resolve_in(channels, ch) {
        Some(freq) => one(EventName::AltControl, Payload::AltControl(SerdeAltControl::of(s, freq))),
        None => Seq::empty(),
    }
}

/// The messages for a packet of alternative control channels: one for
/// each entry that resolves, in packet order.
pub open spec fn alt_control_messages(
    s: AltControlChannel,
    channels: Map<u8, ChannelParams>,
) -> Seq<SerdeEvent> {
    alt_messages(s, s.first, channels) + alt_messages(s, s.second, channels)
}

/// The message for a neighbouring site: one if its control channel
/// resolves to a frequency, none otherwise.
pub open spec fn adjacent_site_messages(
    s: AdjacentSite,
    channels: Map<u8, ChannelParams>,
) -> Seq<SerdeEvent> {
    match resolve_in(channels, s.channel) {
        Some(freq) => one(
            EventName::AdjacentSite,
            Payload::AdjacentSite(SerdeAdjacentSite::of(s, freq)),
        ),
        None => Seq::empty(),
    }
}

/// The messages for a trunking control packet.
pub open spec fn tsbk_messages(t: TsbkFields, channels: Map<u8, ChannelParams>) -> Seq<
    SerdeEvent,
> {
    match t {
        TsbkFields::RfssStatusBroadcast(s) => rfss_status_messages(s),
        TsbkFields::NetworkStatusBroadcast(s) => one(
            EventName::NetworkStatus,
            Payload::NetworkStatus(SerdeNetworkStatus::of(s)),
        ),
        TsbkFields::AltControlChannel(s) => alt_control_messages(s, channels),
        TsbkFields::AdjacentSite(s) => adjacent_site_messages(s, channels),
        TsbkFields::LocRegResponse(s) => one(
            EventName::LocReg,
            Payload::LocReg(SerdeLocRegResponse::of(s)),
        ),
        TsbkFields::UnitRegResponse(s) => one(
            EventName::UnitReg,
            Payload::UnitReg(SerdeUnitRegResponse::of(s)),
        ),
        TsbkFields::UnitDeregAck(s) => one(
            EventName::UnitDereg,
            Payload::UnitDereg(SerdeUnitDeregAck::of(s)),
        ),
        _ => Seq::empty(),
    }
}

/// The messages for a link control word.
pub open spec fn link_control_messages(
    lc: LinkControlFields,
    channels: Map<u8, ChannelParams>,
) -> Seq<SerdeEvent> {
    match lc {
        LinkControlFields::GroupVoiceTraffic { talkgroup, src_unit } => one(
            EventName::SrcUnit,
            Payload::Word(src_unit),
        ),
        LinkControlFields::RfssStatusBroadcast(s) => rfss_status_messages(s),
        LinkControlFields::AdjacentSite(s) => adjacent_site_messages(s, channels),
        LinkControlFields::AltControlChannel(s) => alt_control_messages(s, channels),
        LinkControlFields::Other => Seq::empty(),
    }
}

/// The messages that an event puts on every subscriber's stream, in
/// order, given the channel parameters the hub knows.
pub open spec fn messages(e: HubEvent, channels: Map<u8, ChannelParams>) -> Seq<SerdeEvent> {
    match e {
        HubEvent::State(StateEvent::UpdateCtlFreq(f)) => one(EventName::CtlFreq, Payload::Word(f)),
        HubEvent::State(StateEvent::UpdateChannelParams(_)) => Seq::empty(),
        HubEvent::UpdateCurFreq(f) => one(EventName::CurFreq, Payload::Word(f)),
        HubEvent::UpdateTalkGroup(tg) => one(EventName::TalkGroup, Payload::Group(tg)),
        HubEvent::UpdateSignalPower(p) => one(EventName::SigPower, Payload::Power(p)),
        HubEvent::TrunkingControl(t) => tsbk_messages(t, channels),
        HubEvent::LinkControl(lc) => link_control_messages(lc, channels),
    }
}

/// What a hub stands for.
pub struct HubModel {
    /// The hub's copy of the receiver's state.
    pub state: StateView,
    /// The subscribers, oldest first.
    pub subscribers: Seq<i32>,
}

impl HubModel {
    /// The subscribers respect their bound and are distinct.
    pub open spec fn wf(self) -> bool {
        subscribers_wf(self.subscribers)
    }

    /// Whether a further subscriber can be taken.
    pub open spec fn has_room(self) -> bool {
        self.subscribers.len() < MAX_SUBSCRIBERS
    }
}

/// What the hub does with a request it accepts.
#[derive(Clone, Copy, Debug, PartialEq, Eq, Structural)]
pub enum Reply {
    /// Take the connection as a subscriber.
    Subscribe,
    /// Answer with this control channel frequency.
    CtlFreq(u32),
    /// Read a control channel frequency from the body and hand it to the
    /// receiver.
    SetCtlFreq,
    /// Answer with the headers that allow cross-origin use.
    Options,
}

/// The hub's answer to a request line.
pub open spec fn reply_of(h: HubModel, ver: HttpVersion, method: Method, path: Seq<char>) -> Result<
    Reply,
    StatusCode,
> {
    match plan_of(ver, method, path) {
        Err(status) => Err(status),
        Ok(Plan::Subscribe) => Ok(Reply::Subscribe),
        Ok(Plan::GetCtlFreq) => Ok(Reply::CtlFreq(h.state.ctlfreq)),
        Ok(Plan::PutCtlFreq) => Ok(Reply::SetCtlFreq),
        Ok(Plan::Options) => Ok(Reply::Options),
    }
}

/// Whether a connection that asks to subscribe is taken: its stream
/// must have been duplicated, and there must be room.
pub open spec fn admission(h: HubModel, cloned: bool) -> Result<(), StatusCode> {
    if !cloned {
        Err(StatusCode::InternalServerError)
    } else if !h.has_room() {
        Err(StatusCode::TooManyRequests)
    } else {
        Ok(())
    }
}

/// Handles HTTP requests and broadcasts events to listening subscribers.
pub struct HubTask {
    /// Tracks pertinent state of other tasks.
    state: State,
    /// Streams subscribed to receive events.
    streamers: Subscribers,
}

impl View for HubTask {
    type V = HubModel;

    closed spec fn view(&self) -> HubModel {
        HubModel { state: self.state@, subscribers: self.streamers@ }
    }
}

impl HubTask {
    /// The state is sound, and the subscribers respect their bound and
    /// are distinct.
    pub closed spec fn wf(&self) -> bool {
        self.state.wf() && self.streamers.wf()
    }

    /// A well-formed hub stands for a well-formed model.
    pub proof fn lemma_wf(&self)
        requires
            self.wf(),
        ensures
            self@.wf(),
    {
    }

    /// Create a new `HubTask` that knows nothing and serves nobody.
    pub fn new() -> (hub: HubTask)
        ensures
            hub.wf(),
            hub@ == (HubModel {
                state: StateView { ctlfreq: UNKNOWN_FREQ, channels: Map::empty() },
                subscribers: Seq::empty(),
            }),
    {
        HubTask { state: State::new(), streamers: Subscribers::new() }
    }

    /// The control channel frequency the hub knows.
    pub fn ctlfreq(&self) -> (f: u32)
        ensures
            f == self@.state.ctlfreq,
    {
        self.state.ctlfreq
    }

    /// Decides what becomes of a request, from its request line.
    pub fn handle_request(&self, ver: HttpVersion, method: Method, path: &str) -> (r: Result<
        Reply,
        StatusCode,
    >)
        ensures
            r == reply_of(self@, ver, method, path@),
    {
        match plan(ver, method, path) {
            Err(status) => Err(status),
            Ok(Plan::Subscribe) => Ok(Reply::Subscribe),
            Ok(Plan::GetCtlFreq) => Ok(Reply::CtlFreq(self.state.ctlfreq)),
            Ok(Plan::PutCtlFreq) => Ok(Reply::SetCtlFreq),
            Ok(Plan::Options) => Ok(Reply::Options),
        }
    }

    /// Decides whether a connection that asks to subscribe is taken.
    /// `cloned` says whether its stream could be duplicated.
    pub fn accept(&self, cloned: bool) -> (r: Result<(), StatusCode>)
        requires
            self.wf(),
        ensures
            r == admission(self@, cloned),
    {
        if !cloned {
            Err(StatusCode::InternalServerError)
        } else if self.streamers.is_full() {
            Err(StatusCode::TooManyRequests)
        } else {
            Ok(())
        }
    }

    /// Whether `id` is a subscriber.
    pub fn is_subscribed(&self, id: i32) -> (found: bool)
        ensures
            found == self@.subscribers.contains(id),
    {
        self.streamers.contains(id)
    }

    /// Whether a further subscriber can be taken.
    pub fn has_room(&self) -> (room: bool)
        requires
            self.wf(),
        ensures
            room == self@.has_room(),
    {
        !self.streamers.is_full()
    }

    /// Takes the stream with descriptor `id` as the newest subscriber,
    /// once its stream head has been sent.
    pub fn subscribe(&mut self, id: i32)
        requires
            old(self).wf(),
            old(self)@.has_room(),
            !old(self)@.subscribers.contains(id),
        ensures
            final(self).wf(),
            final(self)@ == (HubModel {
                state: old(self)@.state,
                subscribers: old(self)@.subscribers.push(id),
            }),
    {
        self.streamers.push(id);
    }

    /// The status that answers a request to set the control frequency:
    /// `sent` says whether the receiver took the command.
    pub fn forwarded(sent: bool) -> (status: StatusCode)
        ensures
            status == (if sent {
                StatusCode::Okay
            } else {
                StatusCode::InternalServerError
            }),
    {
        if sent {
            StatusCode::Okay
        } else {
            StatusCode::InternalServerError
        }
    }

    /// Handle the given channel event: the state takes it in, and the
    /// messages for the subscribers are returned. The subscribers stay as
    /// they are until the outcome of the writes is reported.
    pub fn handle_event(&mut self, e: HubEvent) -> (out: Vec<SerdeEvent>)
        requires
            old(self).wf(),
        ensures
            final(self).wf(),
            final(self)@.state == state_after_event(old(self)@.state, e),
            final(self)@.subscribers == old(self)@.subscribers,
            out@ == messages(e, final(self)@.state.channels),
    {
        if let HubEvent::State(sm) = e {
            self.state.update(sm);
        }
        self.stream_event(&e)
    }

    /// The subscribers in the order in which the messages of an event are
    /// written to them: the newest comes first.
    pub fn streamers(&self) -> (order: Vec<i32>)
        ensures
            order@ == self@.subscribers.reverse(),
    {
        self.streamers.visit_order()
    }

    /// Ends the round of writes for one event: the subscribers in `failed`
    /// are dropped, the others stay.
    pub fn drop_failed(&mut self, failed: &[i32])
        requires
            old(self).wf(),
        ensures
            final(self).wf(),
            final(self)@ == (HubModel {
                state: old(self)@.state,
                subscribers: survivors(old(self)@.subscribers, failed@),
            }),
    {
        self.streamers.retain(failed);
    }

    /// The messages that `e` puts on a subscriber's stream.
    pub fn stream_event(&self, e: &HubEvent) -> (out: Vec<SerdeEvent>)
        requires
            self.wf(),
        ensures
            out@ == messages(*e, self@.state.channels),
    {
        match *e {
            HubEvent::State(StateEvent::UpdateCtlFreq(f)) => single(
                EventName::CtlFreq,
                Payload::Word(f),
            ),
            HubEvent::State(StateEvent::UpdateChannelParams(_)) => Vec::new(),
            HubEvent::UpdateCurFreq(f) => single(EventName::CurFreq, Payload::Word(f)),
            HubEvent::UpdateTalkGroup(tg) => single(EventName::TalkGroup, Payload::Group(tg)),
            HubEvent::UpdateSignalPower(p) => single(EventName::SigPower, Payload::Power(p)),
            HubEvent::TrunkingControl(tsbk) => match tsbk {
                TsbkFields::RfssStatusBroadcast(s) => self.stream_rfss_status(s),
                TsbkFields::NetworkStatusBroadcast(s) => single(
                    EventName::NetworkStatus,
                    Payload::NetworkStatus(SerdeNetworkStatus::new(&s)),
                ),
                TsbkFields::AltControlChannel(s) => self.stream_alt_control(s),
                TsbkFields::AdjacentSite(s) => self.stream_adjacent_site(s),
                TsbkFields::LocRegResponse(s) => single(
                    EventName::LocReg,
                    Payload::LocReg(SerdeLocRegResponse::new(&s)),
                ),
                TsbkFields::UnitRegResponse(s) => single(
                    EventName::UnitReg,
                    Payload::UnitReg(SerdeUnitRegResponse::new(&s)),
                ),
                TsbkFields::UnitDeregAck(s) => single(
                    EventName::UnitDereg,
                    Payload::UnitDereg(SerdeUnitDeregAck::new(&s)),
                ),
                _ => Vec::new(),
            },
            HubEvent::LinkControl(lc) => match lc {
                LinkControlFields::GroupVoiceTraffic { talkgroup, src_unit } => single(
                    EventName::SrcUnit,
                    Payload::Word(src_unit),
                ),
                LinkControlFields::RfssStatusBroadcast(s) => self.stream_rfss_status(s),
                LinkControlFields::AdjacentSite(s) => self.stream_adjacent_site(s),
                LinkControlFields::AltControlChannel(s) => self.stream_alt_control(s),
                LinkControlFields::Other => Vec::new(),
            },
        }
    }

    fn stream_rfss_status(&self, f: RfssStatusBroadcast) -> (out: Vec<SerdeEvent>)
        ensures
            out@ == rfss_status_messages(f),
    {
        single(EventName::RfssStatus, Payload::RfssStatus(SerdeRfssStatus::new(&f)))
    }

    fn stream_alt_control(&self, f: AltControlChannel) -> (out: Vec<SerdeEvent>)
        requires
            self.wf(),
        ensures
            out@ == alt_control_messages(f, self@.state.channels),
    {
        let mut out: Vec<SerdeEvent> = Vec::new();
        if let Some(freq) = self.state.channels.resolve(f.first) {
            out.push(SerdeEvent::new(
                EventName::AltControl,
                Payload::AltControl(SerdeAltControl::new(&f, freq)),
            ));
        }
        if let Some(freq) = self.state.channels.resolve(f.second) {
            out.push(SerdeEvent::new(
                EventName::AltControl,
                Payload::AltControl(SerdeAltControl::new(&f, freq)),
            ));
        }
        assert(out@ =~= alt_control_messages(f, self@.state.channels));
        out
    }

    fn stream_adjacent_site(&self, f: AdjacentSite) -> (out: Vec<SerdeEvent>)
        requires
            self.wf(),
        ensures
            out@ == adjacent_site_messages(f, self@.state.channels),
    {
        match self.state.channels.resolve(f.channel) {
            Some(freq) => single(
                EventName::AdjacentSite,
                Payload::AdjacentSite(SerdeAdjacentSite::new(&f, freq)),
            ),
            None => Vec::new(),
        }
    }
}

fn single(event: EventName, payload: Payload) -> (out: Vec<SerdeEvent>)
    ensures
        out@ == one(event, payload),
{
    let mut out: Vec<SerdeEvent> = Vec::new();
    out.push(SerdeEvent::new(event, payload));
    assert(out@ =~= one(event, payload));
    out
}

} // verus!
