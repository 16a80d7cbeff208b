//! Channel identifiers and the table that resolves them to frequencies.

use vstd::prelude::*;

verus! {

/// Logical channel coordinate: the identifier of a parameter set and a
/// channel number within it.
#[derive(Clone, Copy, Debug, PartialEq, Eq, Structural)]
pub struct Channel {
    /// Identifier of the parameter set.
    pub id: u8,
    /// Channel number within the set.
    pub number: u16,
}

/// Parameters of one channel identifier, all in Hz.
#[derive(Clone, Copy, Debug, PartialEq, Eq, Structural)]
pub struct ChannelParams {
    /// Frequency of channel number zero.
    pub base: u32,
    /// Distance between neighbouring channel numbers.
    pub spacing: u32,
    /// Offset of the transmit frequency from the receive frequency.
    pub offset: i32,
    /// Width of one channel.
    pub bandwidth: u32,
}

/// Number of channel identifiers.
pub const CHANNEL_IDS: usize = 256;

impl ChannelParams {
    /// Receive frequency of channel `number`, as a mathematical integer.
    pub open spec fn rx_hz(self, number: u16) -> int {
        self.base + self.spacing * number
    }

    /// Receive frequency of channel `number`, where a frequency value can
    /// hold it.
    pub open spec fn rx(self, number: u16) -> Option<u32> {
        if self.rx_hz(number) <= u32::MAX {
            Some(self.rx_hz(number) as u32)
        } else {
            None
        }
    }

    /// Receive frequency of channel `number`, or `None` where it exceeds
    /// what a frequency value can hold.
    pub fn rx_freq(&self, number: u16) -> (f: Option<u32>)
        ensures
            f == self.rx(number),
    {
        let spacing: u64 = self.spacing as u64;
        let steps: u64 = number as u64;
        assert(spacing * steps <= 0xffff_ffff * 0xffff) by (nonlinear_arith)
            requires
                spacing <= 0xffff_ffff,
                steps <= 0xffff,
        ;
        let hz: u64 = self.base as u64 + spacing * steps;
        if hz <= u32::MAX as u64 {
            Some(hz as u32)
        } else {
            None
        }
    }
}

/// What a table of channel parameters resolves `ch` to: the receive
/// frequency under the parameters of its identifier, if those are known and
/// the frequency can be held.
pub open spec fn resolve_in(table: Map<u8, ChannelParams>, ch: Channel) -> Option<u32> {
    if table.contains_key(ch.id) {
        table[ch.id].rx(ch.number)
    } else {
        None
    }
}

/// Channel parameters by identifier, as announced on the control channel.
pub struct ChannelParamsMap {
    slots: Vec<Option<ChannelParams>>,
}

impl View for ChannelParamsMap {
    type V = Map<u8, ChannelParams>;

    closed spec fn view(&self) -> Map<u8, ChannelParams> {
        Map::new(
            |id: u8| (id as int) < self.slots@.len() && self.slots@[id as int].is_some(),
            |id: u8| self.slots@[id as int].unwrap(),
        )
    }
}

impl ChannelParamsMap {
    /// Every identifier has a slot.
    pub closed spec fn wf(&self) -> bool {
        self.slots@.len() == CHANNEL_IDS
    }

    /// A table in which no identifier is known.
    pub fn new() -> (table: ChannelParamsMap)
        ensures
            table.wf(),
            table@ == Map::<u8, ChannelParams>::empty(),
    {
        let mut slots: Vec<Option<ChannelParams>> = Vec::new();
        let mut i: usize = 0;
        while i < CHANNEL_IDS
            invariant
                i <= CHANNEL_IDS,
                slots@.len() == i,
                forall|k: int| 0 <= k < i ==> slots@[k].is_none(),
            decreases CHANNEL_IDS - i,
        {
            slots.push(None);
            i = i + 1;
        }
        let table = ChannelParamsMap { slots };
        assert(table@ =~= Map::<u8, ChannelParams>::empty());
        table
    }

    /// Records `params` as the parameters of identifier `id`, replacing
    /// what was known of it. No other identifier changes.
    pub fn update(&mut self, id: u8, params: ChannelParams)
        requires
            old(self).wf(),
        ensures
            final(self).wf(),
            final(self)@ == old(self)@.insert(id, params),
    {
        self.slots.set(id as usize, Some(params));
        assert(self@ =~= old(self)@.insert(id, params));
    }

    /// The parameters of identifier `id`, if known.
    pub fn lookup(&self, id: u8) -> (p: Option<ChannelParams>)
        requires
            self.wf(),
        ensures
            p == (if self@.contains_key(id) {
                Some(self@[id])
            } else {
                None
            }),
    {
        self.slots[id as usize]
    }

    /// The receive frequency of `ch`, if its identifier is known and the
    /// frequency can be held.
    pub fn resolve(&self, ch: Channel) -> (f: Option<u32>)
        requires
            self.wf(),
        ensures
            f == resolve_in(self@, ch),
    {
        match self.lookup(ch.id) {
            Some(p) => p.rx_freq(ch.number),
            None => None,
        }
    }
}

} // verus!
