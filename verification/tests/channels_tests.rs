use p25rx::channels::{Channel, ChannelParams, ChannelParamsMap};

fn params(base: u32, spacing: u32) -> ChannelParams {
    ChannelParams { base, spacing, offset: -45_000_000, bandwidth: 12_500 }
}

#[test]
fn receive_frequency_is_base_plus_steps() {
    let p = params(851_000_000, 12_500);
    assert_eq!(p.rx_freq(0), Some(851_000_000));
    assert_eq!(p.rx_freq(1), Some(851_012_500));
    assert_eq!(p.rx_freq(4095), Some(851_000_000 + 4095 * 12_500));
}

#[test]
fn receive_frequency_that_does_not_fit_is_none() {
    let p = params(u32::MAX, 1);
    assert_eq!(p.rx_freq(0), Some(u32::MAX));
    assert_eq!(p.rx_freq(1), None);
    let q = params(0, u32::MAX);
    assert_eq!(q.rx_freq(1), Some(u32::MAX));
    assert_eq!(q.rx_freq(2), None);
    assert_eq!(q.rx_freq(u16::MAX), None);
}

#[test]
fn new_table_knows_no_identifier() {
    let table = ChannelParamsMap::new();
    for id in 0..=255u8 {
        assert_eq!(table.lookup(id), None);
    }
    assert_eq!(table.resolve(Channel { id: 0, number: 0 }), None);
}

#[test]
fn update_records_one_identifier_only() {
    let mut table = ChannelParamsMap::new();
    table.update(3, params(851_000_000, 12_500));
    assert_eq!(table.lookup(3), Some(params(851_000_000, 12_500)));
    assert_eq!(table.lookup(2), None);
    assert_eq!(table.lookup(4), None);
    assert_eq!(table.lookup(255), None);
    table.update(255, params(770_000_000, 6_250));
    assert_eq!(table.lookup(3), Some(params(851_000_000, 12_500)));
    assert_eq!(table.lookup(255), Some(params(770_000_000, 6_250)));
}

#[test]
fn update_replaces_what_was_known() {
    let mut table = ChannelParamsMap::new();
    table.update(1, params(851_000_000, 12_500));
    table.update(1, params(770_000_000, 6_250));
    assert_eq!(table.lookup(1), Some(params(770_000_000, 6_250)));
}

#[test]
fn channels_resolve_under_their_identifier() {
    let mut table = ChannelParamsMap::new();
    table.update(1, params(851_000_000, 12_500));
    table.update(2, params(770_000_000, 6_250));
    assert_eq!(table.resolve(Channel { id: 1, number: 2 }), Some(851_025_000));
    assert_eq!(table.resolve(Channel { id: 2, number: 2 }), Some(770_012_500));
    assert_eq!(table.resolve(Channel { id: 3, number: 2 }), None);
}

#[test]
fn channel_whose_frequency_does_not_fit_does_not_resolve() {
    let mut table = ChannelParamsMap::new();
    table.update(9, params(4_294_000_000, 1_000_000));
    assert_eq!(table.resolve(Channel { id: 9, number: 0 }), Some(4_294_000_000));
    assert_eq!(table.resolve(Channel { id: 9, number: 1 }), None);
}
