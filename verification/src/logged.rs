use vstd::prelude::*;
use crate::hal::{AdcSource, DigitalInput, RawAdc, RawPin, SampleEvent};
use crate::reading::ReadResult;

verus! {

/// A bare ADC capability wrapped with the ghost record [`AdcSource`]
/// asks for: every conversion served by the underlying hardware is
/// appended to the record, outcome and all, by verified code.
///
/// The wrapper adds no behaviour — the raw capability performs the
/// conversion, under its own exclusion discipline — so nothing about
/// the hardware is taken on trust to maintain the record.
pub struct LoggedAdc<R: RawAdc> {
    pub raw: R,
    pub history: Ghost<Seq<SampleEvent<<R as RawAdc>::Error>>>,
}

impl<R: RawAdc> LoggedAdc<R> {
    /// Wrap a bare ADC capability; its record starts empty.
    pub fn new(raw: R) -> (r: Self)
        ensures
            r.raw == raw,
            r.log() == Seq::<SampleEvent<<R as RawAdc>::Error>>::empty(),
    {
        LoggedAdc { raw, history: Ghost(Seq::empty()) }
    }
}

impl<R: RawAdc> AdcSource for LoggedAdc<R> {
    type Error = <R as RawAdc>::Error;

    open spec fn log(&self) -> Seq<SampleEvent<<R as RawAdc>::Error>> {
        self.history@
    }

    fn sample(&mut self, channel: u8) -> (r: ReadResult<u16, <R as RawAdc>::Error>) {
        let outcome = self.raw.raw_sample(channel);
        proof {
            self.history@ = self.history@.push(SampleEvent { channel, outcome });
        }
        outcome
    }
}

/// A bare digital input wrapped with the ghost record [`DigitalInput`]
/// asks for: every answer the underlying input gives is appended to the
/// record by verified code.
pub struct LoggedPin<P: RawPin> {
    pub raw: P,
    pub history: Ghost<Seq<Result<bool, <P as RawPin>::Error>>>,
}

impl<P: RawPin> LoggedPin<P> {
    /// Wrap a bare digital input; its record starts empty.
    pub fn new(raw: P) -> (r: Self)
        ensures
            r.raw == raw,
            r.log() == Seq::<Result<bool, <P as RawPin>::Error>>::empty(),
    {
        LoggedPin { raw, history: Ghost(Seq::empty()) }
    }
}

impl<P: RawPin> DigitalInput for LoggedPin<P> {
    type Error = <P as RawPin>::Error;

    open spec fn log(&self) -> Seq<Result<bool, <P as RawPin>::Error>> {
        self.history@
    }

    fn is_active(&mut self) -> (r: Result<bool, <P as RawPin>::Error>) {
        let answer = self.raw.read_level();
        proof {
            self.history@ = self.history@.push(answer);
        }
        answer
    }
}

} // verus!
