use vstd::prelude::*;
use crate::hal::{AdcSource, SampleEvent};
use crate::reading::ReadResult;
use crate::scale::{scale, scale_spec, Normalized};

verus! {

/// One analog input channel together with its scaling configuration: a
/// channel identifier, a handle on the (possibly shared) ADC resource,
/// and the resolution in bits that fixes the scale factor
/// `1 / 2^resolution` applied to every raw sample.
pub struct Axis<A: AdcSource> {
    pub adc: A,
    pub channel: u8,
    pub resolution: u32,
}

/// A raw read outcome carried over into normalized form: a ready raw
/// sample is scaled by `1 / 2^resolution`, while "would block" and
/// failures pass through unchanged.
pub open spec fn scaled_outcome<E>(o: ReadResult<u16, E>, resolution: u32) -> ReadResult<
    Normalized,
    E,
> {
    match o {
        ReadResult::Ready(raw) => ReadResult::Ready(
            Normalized { bits: scale_spec(raw, resolution) as u64 },
        ),
        ReadResult::WouldBlock => ReadResult::WouldBlock,
        ReadResult::Failed(e) => ReadResult::Failed(e),
    }
}

/// Exactly one sample was taken through the axis between the two
/// states, on the axis's own channel, and the axis's configuration is
/// unchanged.
pub open spec fn sampled_once<A: AdcSource>(pre: Axis<A>, post: Axis<A>) -> bool {
    &&& post.channel == pre.channel
    &&& post.resolution == pre.resolution
    &&& post.adc.log().len() == pre.adc.log().len() + 1
    &&& post.adc.log().drop_last() == pre.adc.log()
    &&& post.adc.log().last().channel == pre.channel
}

impl<A: AdcSource> Axis<A> {
    /// The scale factor is fixed at construction from a resolution in
    /// its meaningful range, so it stays a positive fraction.
    pub open spec fn wf(self) -> bool {
        self.resolution < 32
    }

    /// Build one axis from an ADC handle, a channel identifier and the
    /// resolution in bits the ADC is configured for on that channel.
    /// No hardware access is performed.
    pub fn new(adc: A, channel: u8, resolution: usize) -> (r: Self)
        requires
            resolution < 32,
        ensures
            r.adc == adc,
            r.channel == channel,
            r.resolution == resolution,
            r.wf(),
    {
        Axis { adc, channel, resolution: resolution as u32 }
    }

    /// Take one raw sample on this axis's channel. The handle's own
    /// exclusion discipline covers exactly this single conversion, so
    /// the critical section is as short as possible.
    pub fn read_raw(&mut self) -> (r: ReadResult<u16, A::Error>)
        ensures
            final(self).channel == old(self).channel,
            final(self).resolution == old(self).resolution,
            final(self).adc.log() == old(self).adc.log().push(
                (SampleEvent { channel: old(self).channel, outcome: r }),
            ),
    {
        self.adc.sample(self.channel)
    }

    /// Take one raw sample on this axis's channel and scale it: a ready
    /// raw value `s` becomes the normalized position `s / 2^resolution`,
    /// while "would block" and failures propagate unchanged.
    pub fn read(&mut self) -> (r: ReadResult<Normalized, A::Error>)
        requires
            old(self).wf(),
        ensures
            final(self).wf(),
            sampled_once(*old(self), *final(self)),
            r == scaled_outcome(final(self).adc.log().last().outcome, old(self).resolution),
    {
        let raw = self.read_raw();
        proof {
            assert(self.adc.log().drop_last() =~= old(self).adc.log());
        }
        match raw {
            ReadResult::Ready(value) => ReadResult::Ready(scale(value, self.resolution)),
            ReadResult::WouldBlock => ReadResult::WouldBlock,
            ReadResult::Failed(e) => ReadResult::Failed(e),
        }
    }
}

} // verus!
