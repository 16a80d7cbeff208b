use p25rx::channels::{Channel, ChannelParams};
use p25rx::event::{ChannelParamsUpdate, Grant, TsbkFields};
use p25rx::recv::MessageEvent;
use p25rx::replay::ReplayReceiver;

#[test]
fn replay_plays_exactly_the_voice_frames() {
    let mut replay = ReplayReceiver::new();
    let mut yielded: Vec<Option<MessageEvent<u32>>> = Vec::new();
    for _ in 0..100 {
        yielded.push(None);
    }
    yielded.push(Some(MessageEvent::Other));
    for frame in 0..9 {
        yielded.push(Some(MessageEvent::VoiceFrame(frame)));
        yielded.push(None);
    }
    yielded.push(Some(MessageEvent::VoiceTerminator));
    yielded.push(Some(MessageEvent::Error));
    for _ in 0..100 {
        yielded.push(None);
    }
    for frame in 9..18 {
        yielded.push(Some(MessageEvent::VoiceFrame(frame)));
    }
    yielded.push(Some(MessageEvent::VoiceTerminator));
    assert_eq!(replay.feed(yielded), (0..18).collect::<Vec<u32>>());
    assert_eq!(replay.errors(), 1);
}

#[test]
fn replay_goes_on_from_block_to_block() {
    let mut replay = ReplayReceiver::new();
    let mut played: Vec<u32> = Vec::new();
    played.extend(replay.feed::<u32>(vec![
        Some(MessageEvent::VoiceFrame(1)),
        None,
        Some(MessageEvent::Error),
    ]));
    played.extend(replay.feed::<u32>(vec![]));
    played.extend(replay.feed::<u32>(vec![
        None,
        Some(MessageEvent::Error),
        Some(MessageEvent::VoiceFrame(2)),
    ]));
    assert_eq!(played, vec![1, 2]);
    assert_eq!(replay.errors(), 2);
}

#[test]
fn replay_plays_nothing_without_voice() {
    let mut replay = ReplayReceiver::new();
    let quiet: Vec<Option<MessageEvent<u32>>> = vec![
        None,
        Some(MessageEvent::Error),
        Some(MessageEvent::Other),
        Some(MessageEvent::VoiceTerminator),
    ];
    assert_eq!(replay.feed(quiet), Vec::<u32>::new());
    assert_eq!(replay.errors(), 1);
}

#[test]
fn replay_ignores_what_the_control_channel_says() {
    let mut replay = ReplayReceiver::new();
    let update = TsbkFields::ChannelParamsUpdate(ChannelParamsUpdate {
        id: 1,
        params: ChannelParams { base: 851_000_000, spacing: 12_500, offset: 0, bandwidth: 12_500 },
    });
    let grant = TsbkFields::GroupVoiceGrant(Grant {
        talkgroup: 1,
        channel: Channel { id: 1, number: 1 },
        priority: 7,
    });
    let played = replay.feed(vec![
        Some(MessageEvent::TrunkingControl(update)),
        Some(MessageEvent::TrunkingControl(grant)),
        Some(MessageEvent::VoiceFrame(5u32)),
    ]);
    assert_eq!(played, vec![5]);
    assert_eq!(replay.errors(), 0);
}
