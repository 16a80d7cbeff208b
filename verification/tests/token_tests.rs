use p25rx::token::{HubToken, CONNS, EVENTS, FD_MASK, REQUEST};

#[test]
fn socket_and_channel_tokens_have_fixed_words() {
    assert_eq!(HubToken::Conns.into_word(), 1 << 31);
    assert_eq!(HubToken::Events.into_word(), 1 << 30);
    assert_eq!(CONNS, 1 << 31);
    assert_eq!(EVENTS, 1 << 30);
    assert_eq!(REQUEST, 1 << 29);
    assert_eq!(FD_MASK, (1 << 24) - 1);
}

#[test]
fn request_token_round_trips_through_its_word() {
    let tok = HubToken::for_request(7);
    assert_eq!(tok, HubToken::Request(7));
    let word = tok.into_word();
    assert_eq!(word, 0x2000_0007);
    assert!(HubToken::is_word(word));
    assert_eq!(HubToken::from_word(word), HubToken::Request(7));
}

#[test]
fn every_kind_of_token_round_trips() {
    for tok in [
        HubToken::Conns,
        HubToken::Events,
        HubToken::Request(0),
        HubToken::Request(1),
        HubToken::Request(4242),
        HubToken::Request(FD_MASK),
    ] {
        let word = tok.into_word();
        assert!(HubToken::is_word(word));
        assert_eq!(HubToken::from_word(word), tok);
    }
}

#[test]
fn largest_descriptor_fills_the_low_bits() {
    assert_eq!(HubToken::for_request(FD_MASK).into_word(), 0x20ff_ffff);
}

#[test]
fn descriptor_bits_of_a_socket_word_are_ignored() {
    assert!(HubToken::is_word(0x8000_0005));
    assert_eq!(HubToken::from_word(0x8000_0005), HubToken::Conns);
    assert_eq!(HubToken::from_word(0x4000_0005), HubToken::Events);
}

#[test]
fn descriptors_are_tested_against_the_24_bit_bound() {
    assert!(HubToken::fits(0));
    assert!(HubToken::fits(FD_MASK));
    assert!(!HubToken::fits(FD_MASK + 1));
    assert!(!HubToken::fits(-1));
    assert!(!HubToken::fits(i32::MAX));
    assert!(!HubToken::fits(i32::MIN));
}

#[test]
fn words_without_a_single_tag_are_no_tokens() {
    assert!(!HubToken::is_word(0));
    assert!(!HubToken::is_word(7));
    assert!(!HubToken::is_word(0x1000_0000));
    assert!(!HubToken::is_word(0x6000_0000));
    assert!(!HubToken::is_word(0xc000_0000));
    assert!(!HubToken::is_word(0x2100_0000));
    assert!(HubToken::is_word(0x2000_0000));
    assert!(HubToken::is_word(0x20ff_ffff));
}
