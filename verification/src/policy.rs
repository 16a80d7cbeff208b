//! Timing policy of the receiver: how long it collects talkgroups, how long
//! it waits for voice after a hop, and how long it waits for voice to
//! resume. All spans are counted in baseband samples.

use vstd::prelude::*;

verus! {

/// What the policy is timing.
#[derive(Clone, Copy, Debug, PartialEq, Eq, Structural)]
pub enum PolicyMode {
    /// Nothing is timed.
    Idle,
    /// Talkgroups are being collected.
    Collecting,
    /// A traffic channel is followed; the watchdog runs.
    Locked,
    /// The transmission has ended; voice may resume.
    Paused,
}

/// What a `ReceiverPolicy` stands for.
pub struct Policy {
    /// Samples to collect talkgroups before one is selected.
    pub tgselect: usize,
    /// Samples to wait for voice on a traffic channel.
    pub watchdog: usize,
    /// Samples to wait for voice to resume.
    pub pause: usize,
    /// Samples counted in the current mode.
    pub counter: usize,
    /// Current mode.
    pub mode: PolicyMode,
}

impl Policy {
    /// The span of the current mode. Nothing is timed while idle.
    pub open spec fn window(self) -> usize {
        match self.mode {
            PolicyMode::Idle => 0,
            PolicyMode::Collecting => self.tgselect,
            PolicyMode::Locked => self.watchdog,
            PolicyMode::Paused => self.pause,
        }
    }

    /// The counter stays within the span of the mode; while idle it is
    /// zero.
    pub open spec fn wf(self) -> bool {
        self.counter <= self.window()
    }

    /// The policy in `mode`, with the counter at zero.
    pub open spec fn entered(self, mode: PolicyMode) -> Policy {
        Policy { counter: 0, mode, ..self }
    }

    /// Whether the next sample ends the span of the current mode.
    pub open spec fn expires(self) -> bool {
        self.mode != PolicyMode::Idle && self.counter + 1 >= self.window()
    }

    /// The policy after one more sample. A span of `n` samples ends with
    /// the `n`-th sample counted in its mode (with the first, where `n` is
    /// zero); the policy is then idle, and the mode that ran out is
    /// reported.
    pub open spec fn ticked(self) -> (Policy, Option<PolicyMode>) {
        if self.mode == PolicyMode::Idle {
            (self, None)
        } else if self.expires() {
            (self.entered(PolicyMode::Idle), Some(self.mode))
        } else {
            (Policy { counter: (self.counter + 1) as usize, ..self }, None)
        }
    }
}

/// Receiver timing: the three spans, and a counter of the samples seen in
/// the current mode.
pub struct ReceiverPolicy {
    tgselect: usize,
    watchdog: usize,
    pause: usize,
    counter: usize,
    mode: PolicyMode,
}

impl View for ReceiverPolicy {
    type V = Policy;

    closed spec fn view(&self) -> Policy {
        Policy {
            tgselect: self.tgselect,
            watchdog: self.watchdog,
            pause: self.pause,
            counter: self.counter,
            mode: self.mode,
        }
    }
}

impl ReceiverPolicy {
    /// An idle policy with the given spans, in samples.
    pub fn new(tgselect: usize, watchdog: usize, pause: usize) -> (p: ReceiverPolicy)
        ensures
            p@ == (Policy { tgselect, watchdog, pause, counter: 0, mode: PolicyMode::Idle }),
            p@.wf(),
    {
        ReceiverPolicy { tgselect, watchdog, pause, counter: 0, mode: PolicyMode::Idle }
    }

    /// Current mode.
    pub fn mode(&self) -> (m: PolicyMode)
        ensures
            m == self@.mode,
    {
        self.mode
    }

    /// Samples counted in the current mode.
    pub fn counter(&self) -> (n: usize)
        ensures
            n == self@.counter,
    {
        self.counter
    }

    /// Enters `mode` and starts counting from zero.
    pub fn enter(&mut self, mode: PolicyMode)
        ensures
            final(self)@ == old(self)@.entered(mode),
            final(self)@.wf(),
    {
        self.mode = mode;
        self.counter = 0;
    }

    /// Counts one sample. Returns the mode whose span ran out with it, if
    /// one did; the policy is then idle.
    pub fn tick(&mut self) -> (expired: Option<PolicyMode>)
        requires
            old(self)@.wf(),
        ensures
            final(self)@ == old(self)@.ticked().0,
            expired == old(self)@.ticked().1,
            final(self)@.wf(),
    {
        let window: usize = match self.mode {
            PolicyMode::Idle => {
                return None;
            },
            PolicyMode::Collecting => self.tgselect,
            PolicyMode::Locked => self.watchdog,
            PolicyMode::Paused => self.pause,
        };
        if window <= 1 || self.counter >= window - 1 {
            let mode = self.mode;
            self.mode = PolicyMode::Idle;
            self.counter = 0;
            Some(mode)
        } else {
            self.counter = self.counter + 1;
            None
        }
    }
}

} // verus!
