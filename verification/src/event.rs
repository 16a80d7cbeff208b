//! The vocabulary shared by the receiver and the hub: decoded control
//! packets, hub events, and the messages streamed to subscribers.

use crate::channels::{Channel, ChannelParams};
use vstd::prelude::*;

verus! {

/// Answer of the network to a registration request.
#[derive(Clone, Copy, Debug, PartialEq, Eq, Structural)]
pub enum RegResponse {
    Accept,
    Fail,
    Deny,
    Refuse,
}

/// Status of the current site.
#[derive(Clone, Copy, Debug, PartialEq, Eq, Structural)]
pub struct RfssStatusBroadcast {
    pub area: u8,
    pub system: u16,
    pub rfss: u8,
    pub site: u8,
}

/// Status of the network the current site belongs to.
#[derive(Clone, Copy, Debug, PartialEq, Eq, Structural)]
pub struct NetworkStatusBroadcast {
    pub area: u8,
    pub wacn: u32,
    pub system: u16,
}

/// Alternative control channels of a site.
#[derive(Clone, Copy, Debug, PartialEq, Eq, Structural)]
pub struct AltControlChannel {
    pub rfss: u8,
    pub site: u8,
    /// The first channel entry the packet carries.
    pub first: Channel,
    /// The second channel entry the packet carries.
    pub second: Channel,
}

/// A neighbouring site and its control channel.
#[derive(Clone, Copy, Debug, PartialEq, Eq, Structural)]
pub struct AdjacentSite {
    pub area: u8,
    pub rfss: u8,
    pub system: u16,
    pub site: u8,
    pub channel: Channel,
}

/// Answer to a location registration.
#[derive(Clone, Copy, Debug, PartialEq, Eq, Structural)]
pub struct LocRegResponse {
    pub response: RegResponse,
    pub rfss: u8,
    pub site: u8,
    pub dest_unit: u32,
}

/// Answer to a unit registration.
#[derive(Clone, Copy, Debug, PartialEq, Eq, Structural)]
pub struct UnitRegResponse {
    pub response: RegResponse,
    pub system: u16,
    pub src_id: u32,
    pub src_addr: u32,
}

/// Acknowledgement of a unit's deregistration.
#[derive(Clone, Copy, Debug, PartialEq, Eq, Structural)]
pub struct UnitDeregAck {
    pub wacn: u32,
    pub system: u16,
    pub src_unit: u32,
}

/// Announcement of the parameters of one channel identifier.
#[derive(Clone, Copy, Debug, PartialEq, Eq, Structural)]
pub struct ChannelParamsUpdate {
    pub id: u8,
    pub params: ChannelParams,
}

/// Assignment of a talkgroup's traffic to a channel.
#[derive(Clone, Copy, Debug, PartialEq, Eq, Structural)]
pub struct Grant {
    pub talkgroup: u16,
    pub channel: Channel,
    /// Rank of the talkgroup among those competing for the receiver; a
    /// larger value wins.
    pub priority: u8,
}

/// A trunking control packet with a known opcode, decoded.
#[derive(Clone, Copy, Debug, PartialEq, Eq, Structural)]
pub enum TsbkFields {
    GroupVoiceGrant(Grant),
    GroupVoiceUpdate(Grant, Grant),
    GroupVoiceUpdateExplicit(Grant),
    ChannelParamsUpdate(ChannelParamsUpdate),
    RfssStatusBroadcast(RfssStatusBroadcast),
    NetworkStatusBroadcast(NetworkStatusBroadcast),
    AltControlChannel(AltControlChannel),
    AdjacentSite(AdjacentSite),
    LocRegResponse(LocRegResponse),
    UnitRegResponse(UnitRegResponse),
    UnitDeregAck(UnitDeregAck),
    /// Any other known opcode.
    Other,
}

/// A link control word with a known opcode, decoded.
#[derive(Clone, Copy, Debug, PartialEq, Eq, Structural)]
pub enum LinkControlFields {
    GroupVoiceTraffic { talkgroup: u16, src_unit: u32 },
    RfssStatusBroadcast(RfssStatusBroadcast),
    AdjacentSite(AdjacentSite),
    AltControlChannel(AltControlChannel),
    /// Any other known opcode.
    Other,
}

/// State update events.
#[derive(Clone, Copy, Debug, PartialEq, Eq, Structural)]
pub enum StateEvent {
    /// Control channel frequency has been committed.
    UpdateCtlFreq(u32),
    /// Channel parameters have been modified.
    UpdateChannelParams(ChannelParamsUpdate),
}

/// Events for the hub.
#[derive(Clone, Copy, Debug, PartialEq, Eq, Structural)]
pub enum HubEvent {
    /// Some state update.
    State(StateEvent),
    /// Center frequency was changed.
    UpdateCurFreq(u32),
    /// Current talkgroup has changed.
    UpdateTalkGroup(u16),
    /// Power of received signal, as the bit pattern of a 32-bit float.
    UpdateSignalPower(u32),
    /// Trunking control packet was received.
    TrunkingControl(TsbkFields),
    /// Link control packet was received.
    LinkControl(LinkControlFields),
}

/// Payload of the `rfssStatus` message.
#[derive(Clone, Copy, Debug, PartialEq, Eq, Structural)]
pub struct SerdeRfssStatus {
    pub area: u8,
    pub system: u16,
    pub rfss: u8,
    pub site: u8,
}

impl SerdeRfssStatus {
    pub fn new(s: &RfssStatusBroadcast) -> (p: Self)
        ensures
            p == Self::of(*s),
    {
        SerdeRfssStatus { area: s.area, system: s.system, rfss: s.rfss, site: s.site }
    }

    /// The payload that reports `s`.
    pub open spec fn of(s: RfssStatusBroadcast) -> Self {
        SerdeRfssStatus { area: s.area, system: s.system, rfss: s.rfss, site: s.site }
    }
}

/// Payload of the `networkStatus` message.
#[derive(Clone, Copy, Debug, PartialEq, Eq, Structural)]
pub struct SerdeNetworkStatus {
    pub area: u8,
    pub wacn: u32,
    pub system: u16,
}

impl SerdeNetworkStatus {
    pub fn new(s: &NetworkStatusBroadcast) -> (p: Self)
        ensures
            p == Self::of(*s),
    {
        SerdeNetworkStatus { area: s.area, wacn: s.wacn, system: s.system }
    }

    /// The payload that reports `s`.
    pub open spec fn of(s: NetworkStatusBroadcast) -> Self {
        SerdeNetworkStatus { area: s.area, wacn: s.wacn, system: s.system }
    }
}

/// Payload of the `altControl` message.
#[derive(Clone, Copy, Debug, PartialEq, Eq, Structural)]
pub struct SerdeAltControl {
    pub rfss: u8,
    pub site: u8,
    pub freq: u32,
}

impl SerdeAltControl {
    pub fn new(s: &AltControlChannel, freq: u32) -> (p: Self)
        ensures
            p == Self::of(*s, freq),
    {
        SerdeAltControl { rfss: s.rfss, site: s.site, freq }
    }

    /// The payload that reports one alternative control channel of `s`,
    /// found at `freq`.
    pub open spec fn of(s: AltControlChannel, freq: u32) -> Self {
        SerdeAltControl { rfss: s.rfss, site: s.site, freq }
    }
}

/// Payload of the `adjacentSite` message.
#[derive(Clone, Copy, Debug, PartialEq, Eq, Structural)]
pub struct SerdeAdjacentSite {
    pub area: u8,
    pub rfss: u8,
    pub system: u16,
    pub site: u8,
    pub freq: u32,
}

impl SerdeAdjacentSite {
    pub fn new(s: &AdjacentSite, freq: u32) -> (p: Self)
        ensures
            p == Self::of(*s, freq),
    {
        SerdeAdjacentSite { area: s.area, rfss: s.rfss, system: s.system, site: s.site, freq }
    }

    /// The payload that reports site `s`, whose control channel is at
    /// `freq`.
    pub open spec fn of(s: AdjacentSite, freq: u32) -> Self {
        SerdeAdjacentSite { area: s.area, rfss: s.rfss, system: s.system, site: s.site, freq }
    }
}

/// Payload of the `locReg` message.
#[derive(Clone, Copy, Debug, PartialEq, Eq, Structural)]
pub struct SerdeLocRegResponse {
    pub response: RegResponse,
    pub rfss: u8,
    pub site: u8,
    pub unit: u32,
}

impl SerdeLocRegResponse {
    pub fn new(s: &LocRegResponse) -> (p: Self)
        ensures
            p == Self::of(*s),
    {
        SerdeLocRegResponse { response: s.response, rfss: s.rfss, site: s.site, unit: s.dest_unit }
    }

    /// The payload that reports `s`.
    pub open spec fn of(s: LocRegResponse) -> Self {
        SerdeLocRegResponse { response: s.response, rfss: s.rfss, site: s.site, unit: s.dest_unit }
    }
}

/// Payload of the `unitReg` message.
#[derive(Clone, Copy, Debug, PartialEq, Eq, Structural)]
#[allow(non_snake_case)]
pub struct SerdeUnitRegResponse {
    pub response: RegResponse,
    pub system: u16,
    pub unitId: u32,
    pub unitAddr: u32,
}

impl SerdeUnitRegResponse {
    pub fn new(s: &UnitRegResponse) -> (p: Self)
        ensures
            p == Self::of(*s),
    {
        SerdeUnitRegResponse {
            response: s.response,
            system: s.system,
            unitId: s.src_id,
            unitAddr: s.src_addr,
        }
    }

    /// The payload that reports `s`.
    pub open spec fn of(s: UnitRegResponse) -> Self {
        SerdeUnitRegResponse {
            response: s.response,
            system: s.system,
            unitId: s.src_id,
            unitAddr: s.src_addr,
        }
    }
}

/// Payload of the `unitDereg` message.
#[derive(Clone, Copy, Debug, PartialEq, Eq, Structural)]
pub struct SerdeUnitDeregAck {
    pub wacn: u32,
    pub system: u16,
    pub unit: u32,
}

impl SerdeUnitDeregAck {
    pub fn new(s: &UnitDeregAck) -> (p: Self)
        ensures
            p == Self::of(*s),
    {
        SerdeUnitDeregAck { wacn: s.wacn, system: s.system, unit: s.src_unit }
    }

    /// The payload that reports `s`.
    pub open spec fn of(s: UnitDeregAck) -> Self {
        SerdeUnitDeregAck { wacn: s.wacn, system: s.system, unit: s.src_unit }
    }
}

/// What a streamed message carries.
#[derive(Clone, Copy, Debug, PartialEq, Eq, Structural)]
pub enum Payload {
    /// A frequency in Hz, or a unit address.
    Word(u32),
    /// A talkgroup.
    Group(u16),
    /// A signal power, as the bit pattern of a 32-bit float.
    Power(u32),
    RfssStatus(SerdeRfssStatus),
    NetworkStatus(SerdeNetworkStatus),
    AltControl(SerdeAltControl),
    AdjacentSite(SerdeAdjacentSite),
    LocReg(SerdeLocRegResponse),
    UnitReg(SerdeUnitRegResponse),
    UnitDereg(SerdeUnitDeregAck),
}

/// The kinds of message streamed to subscribers.
#[derive(Clone, Copy, Debug, PartialEq, Eq, Structural)]
pub enum EventName {
    CtlFreq,
    CurFreq,
    TalkGroup,
    SigPower,
    RfssStatus,
    NetworkStatus,
    AltControl,
    AdjacentSite,
    LocReg,
    UnitReg,
    UnitDereg,
    SrcUnit,
}

impl EventName {
    /// The name as subscribers see it.
    pub open spec fn text(self) -> Seq<char> {
        match self {
            EventName::CtlFreq => "ctlFreq"@,
            EventName::CurFreq => "curFreq"@,
            EventName::TalkGroup => "talkGroup"@,
            EventName::SigPower => "sigPower"@,
            EventName::RfssStatus => "rfssStatus"@,
            EventName::NetworkStatus => "networkStatus"@,
            EventName::AltControl => "altControl"@,
            EventName::AdjacentSite => "adjacentSite"@,
            EventName::LocReg => "locReg"@,
            EventName::UnitReg => "unitReg"@,
            EventName::UnitDereg => "unitDereg"@,
            EventName::SrcUnit => "srcUnit"@,
        }
    }

    /// The name as subscribers see it.
    pub fn as_str(self) -> (s: &'static str)
        ensures
            s@ == self.text(),
    {
        match self {
            EventName::CtlFreq => "ctlFreq",
            EventName::CurFreq => "curFreq",
            EventName::TalkGroup => "talkGroup",
            EventName::SigPower => "sigPower",
            EventName::RfssStatus => "rfssStatus",
            EventName::NetworkStatus => "networkStatus",
            EventName::AltControl => "altControl",
            EventName::AdjacentSite => "adjacentSite",
            EventName::LocReg => "locReg",
            EventName::UnitReg => "unitReg",
            EventName::UnitDereg => "unitDereg",
            EventName::SrcUnit => "srcUnit",
        }
    }
}

/// One message for the subscribers: a name and a payload.
#[derive(Clone, Copy, Debug, PartialEq, Eq, Structural)]
pub struct SerdeEvent {
    pub event: EventName,
    pub payload: Payload,
}

impl SerdeEvent {
    pub fn new(event: EventName, payload: Payload) -> (m: Self)
        ensures
            m == (SerdeEvent { event, payload }),
    {
        SerdeEvent { event, payload }
    }
}

} // verus!
