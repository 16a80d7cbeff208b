use p25rx::channels::{Channel, ChannelParams};
use p25rx::event::{
    AdjacentSite, AltControlChannel, ChannelParamsUpdate, EventName, Grant, HubEvent,
    LinkControlFields, LocRegResponse, NetworkStatusBroadcast, Payload, RegResponse,
    RfssStatusBroadcast, SerdeAdjacentSite, SerdeAltControl, SerdeEvent, SerdeLocRegResponse,
    SerdeNetworkStatus, SerdeRfssStatus, SerdeUnitDeregAck, SerdeUnitRegResponse, StateEvent,
    TsbkFields, UnitDeregAck, UnitRegResponse,
};
use p25rx::http::{HttpVersion, Method, StatusCode};
use p25rx::hub::{HubTask, Reply, State, UNKNOWN_FREQ};

fn v11() -> HttpVersion {
    HttpVersion::from_parts(1, 1)
}

fn ident(id: u8, base: u32, spacing: u32) -> HubEvent {
    HubEvent::State(StateEvent::UpdateChannelParams(ChannelParamsUpdate {
        id,
        params: ChannelParams { base, spacing, offset: 0, bandwidth: 12_500 },
    }))
}

fn msg(event: EventName, payload: Payload) -> SerdeEvent {
    SerdeEvent::new(event, payload)
}

#[test]
fn new_hub_knows_no_control_frequency() {
    let hub = HubTask::new();
    assert_eq!(hub.ctlfreq(), u32::MAX);
    assert_eq!(UNKNOWN_FREQ, u32::MAX);
    assert_eq!(hub.streamers(), Vec::<i32>::new());
    assert_eq!(
        hub.handle_request(v11(), Method::Get, "/ctlfreq"),
        Ok(Reply::CtlFreq(u32::MAX))
    );
}

#[test]
fn default_state_knows_nothing() {
    for s in [State::default(), State::new()] {
        assert_eq!(s.ctlfreq(), u32::MAX);
        assert_eq!(s.resolve(Channel { id: 0, number: 0 }), None);
    }
}

#[test]
fn state_takes_in_one_thing_per_event() {
    let mut s = State::new();
    s.update(StateEvent::UpdateCtlFreq(5));
    assert_eq!(s.ctlfreq(), 5);
    assert_eq!(s.resolve(Channel { id: 7, number: 2 }), None);
    s.update(StateEvent::UpdateChannelParams(ChannelParamsUpdate {
        id: 7,
        params: ChannelParams { base: 100, spacing: 10, offset: 0, bandwidth: 1 },
    }));
    assert_eq!(s.ctlfreq(), 5);
    assert_eq!(s.resolve(Channel { id: 7, number: 2 }), Some(120));
    assert_eq!(s.resolve(Channel { id: 8, number: 2 }), None);
}

#[test]
fn get_after_put_reports_the_new_frequency() {
    let mut hub = HubTask::new();
    assert_eq!(hub.handle_request(v11(), Method::Put, "/ctlfreq"), Ok(Reply::SetCtlFreq));
    let out = hub.handle_event(HubEvent::State(StateEvent::UpdateCtlFreq(851_012_500)));
    assert_eq!(out, vec![msg(EventName::CtlFreq, Payload::Word(851_012_500))]);
    assert_eq!(hub.ctlfreq(), 851_012_500);
    assert_eq!(
        hub.handle_request(v11(), Method::Get, "/ctlfreq"),
        Ok(Reply::CtlFreq(851_012_500))
    );
}

#[test]
fn subscribe_then_put_streams_the_control_frequency() {
    let mut hub = HubTask::new();
    assert_eq!(hub.handle_request(v11(), Method::Get, "/subscribe"), Ok(Reply::Subscribe));
    assert_eq!(hub.accept(true), Ok(()));
    hub.subscribe(12);
    let out = hub.handle_event(HubEvent::State(StateEvent::UpdateCtlFreq(851_012_500)));
    assert_eq!(hub.streamers(), vec![12]);
    assert_eq!(out.len(), 1);
    assert_eq!(out[0].event.as_str(), "ctlFreq");
    assert_eq!(out[0].payload, Payload::Word(851_012_500));
}

#[test]
fn fifth_subscriber_is_one_too_many() {
    let mut hub = HubTask::new();
    for id in [20, 21, 22, 23] {
        assert!(hub.has_room());
        assert_eq!(hub.accept(true), Ok(()));
        hub.subscribe(id);
    }
    assert!(!hub.has_room());
    assert_eq!(hub.accept(true), Err(StatusCode::TooManyRequests));
    assert_eq!(hub.streamers(), vec![23, 22, 21, 20]);
    for id in [20, 21, 22, 23] {
        assert!(hub.is_subscribed(id));
    }
    assert!(!hub.is_subscribed(24));
}

#[test]
fn stream_that_cannot_be_duplicated_is_a_server_error() {
    let mut hub = HubTask::new();
    assert_eq!(hub.accept(false), Err(StatusCode::InternalServerError));
    for id in 0..4 {
        hub.subscribe(id);
    }
    assert_eq!(hub.accept(false), Err(StatusCode::InternalServerError));
}

#[test]
fn options_and_versions_are_answered_by_the_hub() {
    let hub = HubTask::new();
    assert_eq!(hub.handle_request(v11(), Method::Options, "/anything"), Ok(Reply::Options));
    assert_eq!(
        hub.handle_request(HttpVersion::from_parts(1, 0), Method::Get, "/subscribe"),
        Err(StatusCode::NotImplemented)
    );
    assert_eq!(hub.handle_request(v11(), Method::Get, "/x"), Err(StatusCode::NotFound));
    assert_eq!(
        hub.handle_request(v11(), Method::Delete, "/ctlfreq"),
        Err(StatusCode::MethodNotAllowed)
    );
}

#[test]
fn forwarding_outcome_becomes_a_status() {
    assert_eq!(HubTask::forwarded(true), StatusCode::Okay);
    assert_eq!(HubTask::forwarded(false), StatusCode::InternalServerError);
}

#[test]
fn failed_subscribers_are_dropped_and_the_others_stay() {
    let mut hub = HubTask::new();
    for id in [1, 2, 3] {
        hub.subscribe(id);
    }
    hub.handle_event(HubEvent::UpdateCurFreq(1));
    assert_eq!(hub.streamers(), vec![3, 2, 1]);
    hub.drop_failed(&[2]);
    assert_eq!(hub.streamers(), vec![1, 3]);
    hub.drop_failed(&[]);
    assert_eq!(hub.streamers(), vec![3, 1]);
    assert!(hub.has_room());
    assert!(!hub.is_subscribed(2));
}

#[test]
fn plain_events_name_their_message() {
    let mut hub = HubTask::new();
    assert_eq!(
        hub.handle_event(HubEvent::UpdateCurFreq(770_000_000)),
        vec![msg(EventName::CurFreq, Payload::Word(770_000_000))]
    );
    assert_eq!(
        hub.handle_event(HubEvent::UpdateTalkGroup(4001)),
        vec![msg(EventName::TalkGroup, Payload::Group(4001))]
    );
    assert_eq!(
        hub.handle_event(HubEvent::UpdateSignalPower(0x4248_0000)),
        vec![msg(EventName::SigPower, Payload::Power(0x4248_0000))]
    );
    assert_eq!(hub.ctlfreq(), u32::MAX);
}

#[test]
fn channel_parameters_are_taken_in_silently() {
    let mut hub = HubTask::new();
    assert_eq!(hub.handle_event(ident(1, 851_000_000, 12_500)), vec![]);
    assert_eq!(hub.ctlfreq(), u32::MAX);
    let site = AdjacentSite {
        area: 1,
        rfss: 2,
        system: 3,
        site: 4,
        channel: Channel { id: 1, number: 4 },
    };
    assert_eq!(
        hub.stream_event(&HubEvent::TrunkingControl(TsbkFields::AdjacentSite(site))),
        vec![msg(
            EventName::AdjacentSite,
            Payload::AdjacentSite(SerdeAdjacentSite {
                area: 1,
                rfss: 2,
                system: 3,
                site: 4,
                freq: 851_050_000
            })
        )]
    );
}

#[test]
fn control_frequency_event_leaves_the_channels_alone() {
    let mut hub = HubTask::new();
    hub.handle_event(ident(1, 851_000_000, 12_500));
    hub.handle_event(HubEvent::State(StateEvent::UpdateCtlFreq(9)));
    let site = AdjacentSite {
        area: 0,
        rfss: 0,
        system: 0,
        site: 0,
        channel: Channel { id: 1, number: 0 },
    };
    assert_eq!(
        hub.stream_event(&HubEvent::LinkControl(LinkControlFields::AdjacentSite(site))).len(),
        1
    );
    assert_eq!(hub.ctlfreq(), 9);
}

#[test]
fn status_packets_are_reported_field_by_field() {
    let hub = HubTask::new();
    let rfss = RfssStatusBroadcast { area: 1, system: 0x123, rfss: 4, site: 5 };
    let expect = vec![msg(
        EventName::RfssStatus,
        Payload::RfssStatus(SerdeRfssStatus { area: 1, system: 0x123, rfss: 4, site: 5 }),
    )];
    assert_eq!(
        hub.stream_event(&HubEvent::TrunkingControl(TsbkFields::RfssStatusBroadcast(rfss))),
        expect
    );
    assert_eq!(
        hub.stream_event(&HubEvent::LinkControl(LinkControlFields::RfssStatusBroadcast(rfss))),
        expect
    );
    let net = NetworkStatusBroadcast { area: 7, wacn: 0xbee00, system: 0x2ab };
    assert_eq!(
        hub.stream_event(&HubEvent::TrunkingControl(TsbkFields::NetworkStatusBroadcast(net))),
        vec![msg(
            EventName::NetworkStatus,
            Payload::NetworkStatus(SerdeNetworkStatus { area: 7, wacn: 0xbee00, system: 0x2ab })
        )]
    );
}

#[test]
fn registration_packets_are_reported_field_by_field() {
    let hub = HubTask::new();
    let loc = LocRegResponse { response: RegResponse::Deny, rfss: 1, site: 2, dest_unit: 77 };
    assert_eq!(
        hub.stream_event(&HubEvent::TrunkingControl(TsbkFields::LocRegResponse(loc))),
        vec![msg(
            EventName::LocReg,
            Payload::LocReg(SerdeLocRegResponse {
                response: RegResponse::Deny,
                rfss: 1,
                site: 2,
                unit: 77
            })
        )]
    );
    let unit =
        UnitRegResponse { response: RegResponse::Accept, system: 9, src_id: 100, src_addr: 200 };
    assert_eq!(
        hub.stream_event(&HubEvent::TrunkingControl(TsbkFields::UnitRegResponse(unit))),
        vec![msg(
            EventName::UnitReg,
            Payload::UnitReg(SerdeUnitRegResponse {
                response: RegResponse::Accept,
                system: 9,
                unitId: 100,
                unitAddr: 200
            })
        )]
    );
    let dereg = UnitDeregAck { wacn: 1, system: 2, src_unit: 3 };
    assert_eq!(
        hub.stream_event(&HubEvent::TrunkingControl(TsbkFields::UnitDeregAck(dereg))),
        vec![msg(
            EventName::UnitDereg,
            Payload::UnitDereg(SerdeUnitDeregAck { wacn: 1, system: 2, unit: 3 })
        )]
    );
}

#[test]
fn source_unit_of_voice_traffic_is_reported() {
    let hub = HubTask::new();
    let lc = LinkControlFields::GroupVoiceTraffic { talkgroup: 5, src_unit: 0xabcdef };
    assert_eq!(
        hub.stream_event(&HubEvent::LinkControl(lc)),
        vec![msg(EventName::SrcUnit, Payload::Word(0xabcdef))]
    );
    assert_eq!(hub.stream_event(&HubEvent::LinkControl(LinkControlFields::Other)), vec![]);
}

#[test]
fn grants_and_other_packets_are_not_streamed() {
    let hub = HubTask::new();
    let g = Grant { talkgroup: 1, channel: Channel { id: 0, number: 0 }, priority: 0 };
    for t in [
        TsbkFields::GroupVoiceGrant(g),
        TsbkFields::GroupVoiceUpdate(g, g),
        TsbkFields::GroupVoiceUpdateExplicit(g),
        TsbkFields::ChannelParamsUpdate(ChannelParamsUpdate {
            id: 0,
            params: ChannelParams { base: 1, spacing: 1, offset: 0, bandwidth: 1 },
        }),
        TsbkFields::Other,
    ] {
        assert_eq!(hub.stream_event(&HubEvent::TrunkingControl(t)), vec![]);
    }
}

#[test]
fn trunking_packets_do_not_touch_the_state() {
    let mut hub = HubTask::new();
    let update = TsbkFields::ChannelParamsUpdate(ChannelParamsUpdate {
        id: 1,
        params: ChannelParams { base: 851_000_000, spacing: 12_500, offset: 0, bandwidth: 1 },
    });
    hub.handle_event(HubEvent::TrunkingControl(update));
    let site = AdjacentSite {
        area: 0,
        rfss: 0,
        system: 0,
        site: 0,
        channel: Channel { id: 1, number: 0 },
    };
    assert_eq!(
        hub.stream_event(&HubEvent::TrunkingControl(TsbkFields::AdjacentSite(site))),
        vec![]
    );
}

#[test]
fn alternative_control_channels_are_reported_where_they_resolve() {
    let mut hub = HubTask::new();
    let alt = AltControlChannel {
        rfss: 3,
        site: 4,
        first: Channel { id: 1, number: 2 },
        second: Channel { id: 2, number: 1 },
    };
    let e = HubEvent::TrunkingControl(TsbkFields::AltControlChannel(alt));
    assert_eq!(hub.stream_event(&e), vec![]);
    hub.handle_event(ident(2, 770_000_000, 6_250));
    assert_eq!(
        hub.stream_event(&e),
        vec![msg(
            EventName::AltControl,
            Payload::AltControl(SerdeAltControl { rfss: 3, site: 4, freq: 770_006_250 })
        )]
    );
    hub.handle_event(ident(1, 851_000_000, 12_500));
    let both = vec![
        msg(
            EventName::AltControl,
            Payload::AltControl(SerdeAltControl { rfss: 3, site: 4, freq: 851_025_000 }),
        ),
        msg(
            EventName::AltControl,
            Payload::AltControl(SerdeAltControl { rfss: 3, site: 4, freq: 770_006_250 }),
        ),
    ];
    assert_eq!(hub.stream_event(&e), both);
    assert_eq!(
        hub.stream_event(&HubEvent::LinkControl(LinkControlFields::AltControlChannel(alt))),
        both
    );
}

#[test]
fn adjacent_site_is_reported_only_where_its_channel_resolves() {
    let mut hub = HubTask::new();
    let site = AdjacentSite {
        area: 1,
        rfss: 2,
        system: 3,
        site: 4,
        channel: Channel { id: 6, number: 10 },
    };
    let e = HubEvent::TrunkingControl(TsbkFields::AdjacentSite(site));
    assert_eq!(hub.handle_event(e), vec![]);
    hub.handle_event(ident(6, u32::MAX, 1));
    assert_eq!(hub.handle_event(e), vec![]);
    hub.handle_event(ident(6, 100, 10));
    assert_eq!(
        hub.handle_event(e),
        vec![msg(
            EventName::AdjacentSite,
            Payload::AdjacentSite(SerdeAdjacentSite {
                area: 1,
                rfss: 2,
                system: 3,
                site: 4,
                freq: 200
            })
        )]
    );
}

#[test]
fn message_names_are_spelled_as_subscribers_expect() {
    let names = [
        (EventName::CtlFreq, "ctlFreq"),
        (EventName::CurFreq, "curFreq"),
        (EventName::TalkGroup, "talkGroup"),
        (EventName::SigPower, "sigPower"),
        (EventName::RfssStatus, "rfssStatus"),
        (EventName::NetworkStatus, "networkStatus"),
        (EventName::AltControl, "altControl"),
        (EventName::AdjacentSite, "adjacentSite"),
        (EventName::LocReg, "locReg"),
        (EventName::UnitReg, "unitReg"),
        (EventName::UnitDereg, "unitDereg"),
        (EventName::SrcUnit, "srcUnit"),
    ];
    for (name, text) in names {
        assert_eq!(name.as_str(), text);
    }
}

#[test]
fn payloads_copy_the_fields_they_report() {
    let rfss = RfssStatusBroadcast { area: 1, system: 2, rfss: 3, site: 4 };
    assert_eq!(SerdeRfssStatus::new(&rfss), SerdeRfssStatus { area: 1, system: 2, rfss: 3, site: 4 });
    let net = NetworkStatusBroadcast { area: 1, wacn: 2, system: 3 };
    assert_eq!(SerdeNetworkStatus::new(&net), SerdeNetworkStatus { area: 1, wacn: 2, system: 3 });
    let alt = AltControlChannel {
        rfss: 1,
        site: 2,
        first: Channel { id: 0, number: 0 },
        second: Channel { id: 0, number: 0 },
    };
    assert_eq!(SerdeAltControl::new(&alt, 9), SerdeAltControl { rfss: 1, site: 2, freq: 9 });
    let adj = AdjacentSite {
        area: 1,
        rfss: 2,
        system: 3,
        site: 4,
        channel: Channel { id: 0, number: 0 },
    };
    assert_eq!(
        SerdeAdjacentSite::new(&adj, 9),
        SerdeAdjacentSite { area: 1, rfss: 2, system: 3, site: 4, freq: 9 }
    );
    let loc = LocRegResponse { response: RegResponse::Fail, rfss: 1, site: 2, dest_unit: 3 };
    assert_eq!(
        SerdeLocRegResponse::new(&loc),
        SerdeLocRegResponse { response: RegResponse::Fail, rfss: 1, site: 2, unit: 3 }
    );
    let unit = UnitRegResponse { response: RegResponse::Refuse, system: 1, src_id: 2, src_addr: 3 };
    assert_eq!(
        SerdeUnitRegResponse::new(&unit),
        SerdeUnitRegResponse { response: RegResponse::Refuse, system: 1, unitId: 2, unitAddr: 3 }
    );
    let dereg = UnitDeregAck { wacn: 1, system: 2, src_unit: 3 };
    assert_eq!(SerdeUnitDeregAck::new(&dereg), SerdeUnitDeregAck { wacn: 1, system: 2, unit: 3 });
}

/// Runs one round of writes as a caller does: every subscriber but those in
/// `failing` gets the messages of `e` appended to its stream.
fn broadcast(hub: &mut HubTask, streams: &mut Vec<(i32, Vec<SerdeEvent>)>, e: HubEvent, failing: &[i32]) {
    let msgs = hub.handle_event(e);
    let mut failed = Vec::new();
    for id in hub.streamers() {
        if failing.contains(&id) {
            failed.push(id);
        } else {
            let stream = streams.iter_mut().find(|(fd, _)| *fd == id).unwrap();
            stream.1.extend(msgs.iter().copied());
        }
    }
    hub.drop_failed(&failed);
}

fn join(hub: &mut HubTask, streams: &mut Vec<(i32, Vec<SerdeEvent>)>, id: i32) {
    assert_eq!(hub.accept(true), Ok(()));
    assert!(!hub.is_subscribed(id));
    hub.subscribe(id);
    streams.push((id, Vec::new()));
}

#[test]
fn subscriber_receives_what_is_emitted_after_its_handshake_in_order() {
    let mut hub = HubTask::new();
    let mut streams = Vec::new();
    let site = AdjacentSite {
        area: 1,
        rfss: 2,
        system: 3,
        site: 4,
        channel: Channel { id: 1, number: 1 },
    };
    let adjacent = HubEvent::TrunkingControl(TsbkFields::AdjacentSite(site));

    broadcast(&mut hub, &mut streams, HubEvent::UpdateCurFreq(1), &[]);
    join(&mut hub, &mut streams, 30);
    broadcast(&mut hub, &mut streams, HubEvent::UpdateCurFreq(2), &[]);
    broadcast(&mut hub, &mut streams, adjacent, &[]);
    join(&mut hub, &mut streams, 31);
    broadcast(&mut hub, &mut streams, ident(1, 100, 10), &[]);
    broadcast(&mut hub, &mut streams, adjacent, &[]);
    broadcast(&mut hub, &mut streams, HubEvent::UpdateTalkGroup(9), &[30]);
    broadcast(&mut hub, &mut streams, HubEvent::State(StateEvent::UpdateCtlFreq(3)), &[]);

    let near = msg(
        EventName::AdjacentSite,
        Payload::AdjacentSite(SerdeAdjacentSite { area: 1, rfss: 2, system: 3, site: 4, freq: 110 }),
    );
    assert_eq!(
        streams[0],
        (30, vec![msg(EventName::CurFreq, Payload::Word(2)), near])
    );
    assert_eq!(
        streams[1],
        (
            31,
            vec![
                near,
                msg(EventName::TalkGroup, Payload::Group(9)),
                msg(EventName::CtlFreq, Payload::Word(3)),
            ]
        )
    );
    assert_eq!(hub.streamers(), vec![31]);
}
