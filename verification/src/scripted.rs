use vstd::prelude::*;
use crate::hal::{AdcSource, DigitalInput, SampleEvent};
use crate::reading::ReadResult;

verus! {

/// An in-memory ADC that serves a fixed script of outcomes, one per
/// sample request in order, and reports "would block" once the script
/// is exhausted. The requests it has served double as its sample log,
/// so call order and channels can be checked after the fact.
pub struct ScriptedAdc {
    /// The outcomes to serve, oldest first.
    pub script: Vec<ReadResult<u16, u64>>,
    /// The requests served so far, oldest first.
    pub served: Vec<SampleEvent<u64>>,
}

impl ScriptedAdc {
    /// An ADC that will serve the given outcomes in order.
    pub fn new(script: Vec<ReadResult<u16, u64>>) -> (r: Self)
        ensures
            r.script == script,
            r.served@ == Seq::<SampleEvent<u64>>::empty(),
            r.log() == Seq::<SampleEvent<u64>>::empty(),
    {
        ScriptedAdc { script, served: Vec::new() }
    }
}

impl AdcSource for ScriptedAdc {
    type Error = u64;

    open spec fn log(&self) -> Seq<SampleEvent<u64>> {
        self.served@
    }

    fn sample(&mut self, channel: u8) -> (r: ReadResult<u16, u64>)
        ensures
            final(self).script == old(self).script,
            r == (if old(self).served@.len() < old(self).script@.len() {
                old(self).script@[old(self).served@.len() as int]
            } else {
                ReadResult::<u16, u64>::WouldBlock
            }),
    {
        let cursor = self.served.len();
        let outcome = if cursor < self.script.len() {
            self.script[cursor]
        } else {
            ReadResult::WouldBlock
        };
        self.served.push(SampleEvent { channel, outcome });
        outcome
    }
}

/// An in-memory digital input that answers a fixed script of levels,
/// one per query in order, and fails once the script is exhausted. The
/// answers it has given double as its log.
pub struct ScriptedPin {
    /// The answers to give, oldest first.
    pub script: Vec<Result<bool, u64>>,
    /// The answers given so far, oldest first.
    pub given: Vec<Result<bool, u64>>,
}

impl ScriptedPin {
    /// The error a scripted pin reports when queried past the end of
    /// its script.
    pub const EXHAUSTED: u64 = u64::MAX;

    /// A digital input that will give the given answers in order.
    pub fn new(script: Vec<Result<bool, u64>>) -> (r: Self)
        ensures
            r.script == script,
            r.given@ == Seq::<Result<bool, u64>>::empty(),
            r.log() == Seq::<Result<bool, u64>>::empty(),
    {
        ScriptedPin { script, given: Vec::new() }
    }
}

impl DigitalInput for ScriptedPin {
    type Error = u64;

    open spec fn log(&self) -> Seq<Result<bool, u64>> {
        self.given@
    }

    fn is_active(&mut self) -> (r: Result<bool, u64>)
        ensures
            final(self).script == old(self).script,
            r == (if old(self).given@.len() < old(self).script@.len() {
                old(self).script@[old(self).given@.len() as int]
            } else {
                Err::<bool, u64>(ScriptedPin::EXHAUSTED)
            }),
    {
        let cursor = self.given.len();
        let answer = if cursor < self.script.len() {
            self.script[cursor]
        } else {
            Err(ScriptedPin::EXHAUSTED)
        };
        self.given.push(answer);
        answer
    }
}

} // verus!
