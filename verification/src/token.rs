//! Event-loop tokens: which source a readiness notification came from.
//!
//! A token travels through the poll set as one machine word. The upper bits
//! carry a tag, the lower 24 bits carry the file descriptor of a pending
//! request stream, so that the stream a notification belongs to can be
//! recovered from the word alone.

use vstd::prelude::*;

verus! {

/// Word of the token registered for the listening socket.
pub const CONNS: usize = 0x8000_0000;

/// Word of the token registered for the event channel.
pub const EVENTS: usize = 0x4000_0000;

/// Tag of the tokens registered for request streams.
pub const REQUEST: usize = 0x2000_0000;

/// Largest file descriptor that fits beside a tag.
pub const FD_MASK: i32 = 0x00ff_ffff;

/// Number of words that share one tag.
pub const FD_SPAN: usize = 0x0100_0000;

/// Source of a readiness notification.
#[derive(Clone, Copy, Debug, PartialEq, Eq, Structural)]
pub enum HubToken {
    /// The listening socket has pending connections.
    Conns,
    /// The event channel has pending events.
    Events,
    /// The request stream with the contained file descriptor is readable.
    Request(i32),
}

/// Whether `fd` can be packed into a token: it is not negative and needs at
/// most 24 bits.
pub open spec fn fd_fits(fd: i32) -> bool {
    0 <= fd <= FD_MASK
}

/// Whether `w` carries one of the three tags and nothing else above the
/// descriptor bits.
pub open spec fn is_token_word(w: int) -> bool {
    ||| CONNS <= w < CONNS + FD_SPAN
    ||| EVENTS <= w < EVENTS + FD_SPAN
    ||| REQUEST <= w < REQUEST + FD_SPAN
}

/// The token that a word stands for. The descriptor bits of a word tagged
/// for the socket or the channel are ignored.
pub open spec fn token_of(w: int) -> HubToken {
    if w >= CONNS {
        HubToken::Conns
    } else if w >= EVENTS {
        HubToken::Events
    } else {
        HubToken::Request((w - REQUEST) as i32)
    }
}

impl HubToken {
    /// A request token is valid when its descriptor fits beside the tag.
    pub open spec fn valid(self) -> bool {
        self matches HubToken::Request(fd) ==> fd_fits(fd)
    }

    /// The word under which this token is registered.
    pub open spec fn word(self) -> int {
        match self {
            HubToken::Conns => CONNS as int,
            HubToken::Events => EVENTS as int,
            HubToken::Request(fd) => REQUEST + fd,
        }
    }

    /// Tests whether `fd` can be carried by a request token.
    pub fn fits(fd: i32) -> (b: bool)
        ensures
            b == fd_fits(fd),
    {
        assert((fd & !0x00ff_ffffi32 == 0) == (0 <= fd <= 0x00ff_ffffi32)) by (bit_vector);
        fd & !FD_MASK == 0
    }

    /// The token for the request stream with descriptor `fd`.
    pub fn for_request(fd: i32) -> (t: HubToken)
        requires
            fd_fits(fd),
        ensures
            t == HubToken::Request(fd),
            t.valid(),
    {
        HubToken::Request(fd)
    }

    /// Packs the token into its word.
    pub fn into_word(self) -> (w: usize)
        requires
            self.valid(),
        ensures
            w == self.word(),
            is_token_word(w as int),
    {
        match self {
            HubToken::Conns => CONNS,
            HubToken::Events => EVENTS,
            HubToken::Request(fd) => {
                let low: usize = fd as usize;
                assert(low < 0x0100_0000usize ==> (0x2000_0000usize | low) == 0x2000_0000usize
                    + low) by (bit_vector);
                REQUEST | low
            },
        }
    }

    /// Tests whether `w` is the word of some token.
    pub fn is_word(w: usize) -> (b: bool)
        ensures
            b == is_token_word(w as int),
    {
        let tag: usize = w & !0x00ff_ffffusize;
        assert((w & !0x00ff_ffffusize == 0x8000_0000usize) == (0x8000_0000usize <= w
            < 0x8100_0000usize)) by (bit_vector);
        assert((w & !0x00ff_ffffusize == 0x4000_0000usize) == (0x4000_0000usize <= w
            < 0x4100_0000usize)) by (bit_vector);
        assert((w & !0x00ff_ffffusize == 0x2000_0000usize) == (0x2000_0000usize <= w
            < 0x2100_0000usize)) by (bit_vector);
        tag == CONNS || tag == EVENTS || tag == REQUEST
    }

    /// Recovers the token from its word.
    pub fn from_word(w: usize) -> (t: HubToken)
        requires
            is_token_word(w as int),
        ensures
            t == token_of(w as int),
            t.valid(),
    {
        let tag: usize = w & !0x00ff_ffffusize;
        let low: usize = w & 0x00ff_ffffusize;
        assert((w & !0x00ff_ffffusize == 0x8000_0000usize) == (0x8000_0000usize <= w
            < 0x8100_0000usize)) by (bit_vector);
        assert((w & !0x00ff_ffffusize == 0x4000_0000usize) == (0x4000_0000usize <= w
            < 0x4100_0000usize)) by (bit_vector);
        assert(0x2000_0000usize <= w < 0x2100_0000usize ==> (w & 0x00ff_ffffusize) == w
            - 0x2000_0000usize) by (bit_vector);
        assert(w & 0x00ff_ffffusize <= 0x00ff_ffffusize) by (bit_vector);
        if tag == CONNS {
            HubToken::Conns
        } else if tag == EVENTS {
            HubToken::Events
        } else {
            HubToken::Request(low as i32)
        }
    }
}

/// Packing a valid token and unpacking the word gives the token back, so a
/// readiness notification names exactly the stream that was registered.
pub proof fn lemma_token_round_trip(t: HubToken)
    requires
        t.valid(),
    ensures
        is_token_word(t.word()),
        token_of(t.word()) == t,
{
}

/// Two valid tokens that share a word are the same token.
pub proof fn lemma_token_words_distinct(a: HubToken, b: HubToken)
    requires
        a.valid(),
        b.valid(),
        a.word() == b.word(),
    ensures
        a == b,
{
    lemma_token_round_trip(a);
    lemma_token_round_trip(b);
}

} // verus!
