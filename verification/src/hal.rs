use vstd::prelude::*;
use crate::reading::ReadResult;

verus! {

/// One raw sample taken through an ADC handle: the channel that was
/// requested and the outcome the hardware reported for it.
#[derive(Debug, Clone, Copy, PartialEq, Eq)]
pub struct SampleEvent<E> {
    pub channel: u8,
    pub outcome: ReadResult<u16, E>,
}

/// A bare analog-to-digital conversion capability, as the environment
/// supplies it: one non-blocking single-shot conversion per call, with
/// nothing promised about the outcome.
///
/// Implementations live outside the verifier (a memory-mapped
/// peripheral, a mock); the driver therefore asks nothing of them here.
/// What an implementation must guarantee by other means is the
/// exclusion discipline: each conversion runs under exclusive access to
/// the underlying peripheral (a critical section or mutex, so that at
/// most one execution context system-wide touches the peripheral at a
/// time, even when two handles share it), and the section covers
/// exactly the single conversion. Verified code never relies on that,
/// or on anything else about the outcome: it is stated over whatever
/// comes back.
pub trait RawAdc: Sized {
    /// The error type the underlying ADC reports.
    type Error;

    /// Request one non-blocking conversion on the given channel.
    ///
    /// `WouldBlock` means the conversion has not completed yet and the
    /// call must be retried.
    fn raw_sample(&mut self, channel: u8) -> ReadResult<u16, Self::Error>;
}

/// A bare digital input capability, as the environment supplies it: a
/// synchronous query of the current logic level (`true` is the active,
/// high level), with nothing promised about the answer.
pub trait RawPin: Sized {
    /// The error type the underlying input reports.
    type Error;

    /// Query the current logic level: `true` is the active (high)
    /// level. This call never blocks and has no retry semantics.
    fn read_level(&mut self) -> Result<bool, Self::Error>;
}

/// A handle on an analog-to-digital converter that can perform one
/// non-blocking single-shot conversion per call and keeps a ghost
/// record of the conversions it served.
///
/// `log` is that record, oldest first; `sample` appends the request it
/// served, so a caller's contract can say which conversions a call
/// performs and which it leaves unperformed. Every implementation in
/// this crate is verified to maintain the record faithfully; bare
/// hardware comes in through [`RawAdc`] and the verified
/// [`crate::logged::LoggedAdc`] wrapper.
pub trait AdcSource: Sized {
    /// The error type the underlying ADC reports.
    type Error;

    /// Ghost record of the samples taken through this handle so far.
    spec fn log(&self) -> Seq<SampleEvent<Self::Error>>;

    /// Request one non-blocking conversion on the given channel.
    ///
    /// `WouldBlock` means the conversion has not completed yet and the
    /// call must be retried; nothing is promised about which outcome
    /// comes back, only that the served request is recorded faithfully.
    fn sample(&mut self, channel: u8) -> (r: ReadResult<u16, Self::Error>)
        ensures
            final(self).log() == old(self).log().push((SampleEvent { channel, outcome: r })),
    ;
}

/// A digital input that can be queried for its current logic level,
/// synchronously and without retry semantics, and keeps a ghost record
/// of the answers it has given, oldest first.
///
/// Like [`AdcSource`], every implementation in this crate is verified
/// to record its answers faithfully; a bare pin comes in through
/// [`RawPin`] and the verified [`crate::logged::LoggedPin`] wrapper.
pub trait DigitalInput: Sized {
    /// The error type the underlying input reports.
    type Error;

    /// Ghost record of the answers this input has given so far.
    spec fn log(&self) -> Seq<Result<bool, Self::Error>>;

    /// Query the current logic level: `true` is the active (high)
    /// level. The answer is recorded faithfully in the log.
    fn is_active(&mut self) -> (r: Result<bool, Self::Error>)
        ensures
            final(self).log() == old(self).log().push(r),
    ;
}

} // verus!
