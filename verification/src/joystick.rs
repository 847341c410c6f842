use vstd::prelude::*;
use crate::axis::{sampled_once, scaled_outcome, Axis};
use crate::hal::{AdcSource, DigitalInput};
use crate::reading::ReadResult;
use crate::scale::Normalized;

verus! {

/// Which axis of a combined position read failed, carrying the
/// underlying ADC error unchanged.
#[derive(Debug, Clone, Copy, PartialEq, Eq)]
pub enum JoystickError<VerticalError, HorizontalError> {
    VerticalADCError(VerticalError),
    HorizontalADCError(HorizontalError),
}

/// A two-axis joystick with a push-button switch: a vertical and a
/// horizontal axis (whose ADC handles may share one underlying
/// peripheral or be distinct) and an exclusively owned digital input
/// for the button.
pub struct Joystick<AV: AdcSource, AH: AdcSource, S: DigitalInput> {
    pub vertical: Axis<AV>,
    pub horizontal: Axis<AH>,
    pub switch: S,
}

/// What one combined position read does, related over the ghost sample
/// logs of the two ADC handles:
///
/// - the switch is never touched;
/// - the vertical axis is sampled exactly once, first, in every call;
/// - the horizontal axis is sampled (exactly once) only when the
///   vertical sample came back ready; on a vertical "would block" or
///   failure the horizontal axis is left entirely alone;
/// - a ready pair is exactly the two scaled samples, in (vertical,
///   horizontal) order;
/// - a failure carries the underlying error unchanged, tagged with the
///   axis whose conversion reported it.
pub open spec fn position_step<AV: AdcSource, AH: AdcSource, S: DigitalInput>(
    pre: Joystick<AV, AH, S>,
    post: Joystick<AV, AH, S>,
    r: ReadResult<(Normalized, Normalized), JoystickError<AV::Error, AH::Error>>,
) -> bool {
    &&& post.switch == pre.switch
    &&& sampled_once(pre.vertical, post.vertical)
    &&& match r {
        ReadResult::Ready(pair) => {
            &&& scaled_outcome(post.vertical.adc.log().last().outcome, pre.vertical.resolution)
                == ReadResult::<Normalized, AV::Error>::Ready(pair.0)
            &&& sampled_once(pre.horizontal, post.horizontal)
            &&& scaled_outcome(post.horizontal.adc.log().last().outcome, pre.horizontal.resolution)
                == ReadResult::<Normalized, AH::Error>::Ready(pair.1)
        },
        ReadResult::WouldBlock => {
            ||| {
                &&& post.vertical.adc.log().last().outcome matches ReadResult::WouldBlock
                &&& post.horizontal == pre.horizontal
            }
            ||| {
                &&& post.vertical.adc.log().last().outcome matches ReadResult::Ready(_)
                &&& sampled_once(pre.horizontal, post.horizontal)
                &&& post.horizontal.adc.log().last().outcome matches ReadResult::WouldBlock
            }
        },
        ReadResult::Failed(err) => match err {
            JoystickError::VerticalADCError(e) => {
                &&& post.vertical.adc.log().last().outcome == ReadResult::<u16, AV::Error>::Failed(
                    e,
                )
                &&& post.horizontal == pre.horizontal
            },
            JoystickError::HorizontalADCError(e) => {
                &&& post.vertical.adc.log().last().outcome matches ReadResult::Ready(_)
                &&& sampled_once(pre.horizontal, post.horizontal)
                &&& post.horizontal.adc.log().last().outcome == ReadResult::<
                    u16,
                    AH::Error,
                >::Failed(e)
            },
        },
    }
}

/// Short-circuit law: in a position read whose vertical sample came
/// back "would block", the horizontal axis was not sampled at all and
/// the combined result is "would block".
pub proof fn lemma_short_circuit_on_not_ready<AV: AdcSource, AH: AdcSource, S: DigitalInput>(
    pre: Joystick<AV, AH, S>,
    post: Joystick<AV, AH, S>,
    r: ReadResult<(Normalized, Normalized), JoystickError<AV::Error, AH::Error>>,
)
    requires
        position_step(pre, post, r),
        post.vertical.adc.log().last().outcome matches ReadResult::WouldBlock,
    ensures
        r matches ReadResult::WouldBlock,
        post.horizontal == pre.horizontal,
{
}

/// Ordering law: a position read touches the horizontal axis only when
/// its vertical sample, taken first, came back ready; and then it
/// samples the horizontal axis exactly once.
pub proof fn lemma_horizontal_only_after_vertical<AV: AdcSource, AH: AdcSource, S: DigitalInput>(
    pre: Joystick<AV, AH, S>,
    post: Joystick<AV, AH, S>,
    r: ReadResult<(Normalized, Normalized), JoystickError<AV::Error, AH::Error>>,
)
    requires
        position_step(pre, post, r),
        post.horizontal != pre.horizontal,
    ensures
        post.vertical.adc.log().last().outcome matches ReadResult::Ready(_),
        sampled_once(pre.horizontal, post.horizontal),
{
}

/// Error-tagging law, vertical side: if the vertical conversion failed
/// with error `e`, the position read returns that error tagged
/// `VerticalADCError`, and the horizontal axis was not sampled.
pub proof fn lemma_vertical_error_tagged<AV: AdcSource, AH: AdcSource, S: DigitalInput>(
    pre: Joystick<AV, AH, S>,
    post: Joystick<AV, AH, S>,
    r: ReadResult<(Normalized, Normalized), JoystickError<AV::Error, AH::Error>>,
    e: AV::Error,
)
    requires
        position_step(pre, post, r),
        post.vertical.adc.log().last().outcome == ReadResult::<u16, AV::Error>::Failed(e),
    ensures
        r == ReadResult::<(Normalized, Normalized), JoystickError<AV::Error, AH::Error>>::Failed(
            JoystickError::VerticalADCError(e),
        ),
        post.horizontal == pre.horizontal,
{
}

/// Error-tagging law, horizontal side: if the vertical conversion came
/// back ready and the horizontal conversion failed with error `e`, the
/// position read returns that error tagged `HorizontalADCError`.
pub proof fn lemma_horizontal_error_tagged<AV: AdcSource, AH: AdcSource, S: DigitalInput>(
    pre: Joystick<AV, AH, S>,
    post: Joystick<AV, AH, S>,
    r: ReadResult<(Normalized, Normalized), JoystickError<AV::Error, AH::Error>>,
    e: AH::Error,
)
    requires
        position_step(pre, post, r),
        post.vertical.adc.log().last().outcome matches ReadResult::Ready(_),
        post.horizontal.adc.log().last().outcome == ReadResult::<u16, AH::Error>::Failed(e),
    ensures
        r == ReadResult::<(Normalized, Normalized), JoystickError<AV::Error, AH::Error>>::Failed(
            JoystickError::HorizontalADCError(e),
        ),
{
}

/// Success law: when both conversions came back ready on the same
/// call, the position read returns the pair of scaled samples, in
/// (vertical, horizontal) order.
pub proof fn lemma_ready_pair<AV: AdcSource, AH: AdcSource, S: DigitalInput>(
    pre: Joystick<AV, AH, S>,
    post: Joystick<AV, AH, S>,
    r: ReadResult<(Normalized, Normalized), JoystickError<AV::Error, AH::Error>>,
    raw_v: u16,
    raw_h: u16,
)
    requires
        position_step(pre, post, r),
        post.vertical.adc.log().last().outcome == ReadResult::<u16, AV::Error>::Ready(raw_v),
        post.horizontal.adc.log().last().outcome == ReadResult::<u16, AH::Error>::Ready(raw_h),
    ensures
        r == ReadResult::<(Normalized, Normalized), JoystickError<AV::Error, AH::Error>>::Ready(
            (
                Normalized { bits: crate::scale::scale_spec(raw_v, pre.vertical.resolution) as u64 },
                Normalized {
                    bits: crate::scale::scale_spec(raw_h, pre.horizontal.resolution) as u64,
                },
            ),
        ),
{
}

impl<AV: AdcSource, AH: AdcSource, S: DigitalInput> Joystick<AV, AH, S> {
    /// Both axes carry a resolution in its meaningful range.
    pub open spec fn wf(self) -> bool {
        &&& self.vertical.wf()
        &&& self.horizontal.wf()
    }

    /// Wire two axes and the switch capability together. No hardware
    /// access is performed.
    pub fn new(
        vertical_channel: u8,
        vertical_adc: AV,
        vertical_resolution: usize,
        horizontal_channel: u8,
        horizontal_adc: AH,
        horizontal_resolution: usize,
        switch: S,
    ) -> (r: Self)
        requires
            vertical_resolution < 32,
            horizontal_resolution < 32,
        ensures
            r.vertical.adc == vertical_adc,
            r.vertical.channel == vertical_channel,
            r.vertical.resolution == vertical_resolution,
            r.horizontal.adc == horizontal_adc,
            r.horizontal.channel == horizontal_channel,
            r.horizontal.resolution == horizontal_resolution,
            r.switch == switch,
            r.wf(),
    {
        Joystick {
            vertical: Axis::new(vertical_adc, vertical_channel, vertical_resolution),
            horizontal: Axis::new(horizontal_adc, horizontal_channel, horizontal_resolution),
            switch,
        }
    }

    /// Read the vertical axis once: one sample on its channel, scaled
    /// by its resolution. The horizontal axis and the switch are left
    /// alone.
    pub fn get_vertical(&mut self) -> (r: ReadResult<Normalized, AV::Error>)
        requires
            old(self).wf(),
        ensures
            final(self).wf(),
            final(self).horizontal == old(self).horizontal,
            final(self).switch == old(self).switch,
            sampled_once(old(self).vertical, final(self).vertical),
            r == scaled_outcome(
                final(self).vertical.adc.log().last().outcome,
                old(self).vertical.resolution,
            ),
    {
        self.vertical.read()
    }

    /// Read the horizontal axis once: one sample on its channel, scaled
    /// by its resolution. The vertical axis and the switch are left
    /// alone.
    pub fn get_horizontal(&mut self) -> (r: ReadResult<Normalized, AH::Error>)
        requires
            old(self).wf(),
        ensures
            final(self).wf(),
            final(self).vertical == old(self).vertical,
            final(self).switch == old(self).switch,
            sampled_once(old(self).horizontal, final(self).horizontal),
            r == scaled_outcome(
                final(self).horizontal.adc.log().last().outcome,
                old(self).horizontal.resolution,
            ),
    {
        self.horizontal.read()
    }

    /// Query the push-button: `true` exactly when the digital input
    /// reports the active (high) level, and any failure of the input is
    /// surfaced unchanged. Neither ADC is touched, and the answer is
    /// precisely the one the capability just gave (the entry appended
    /// to its log).
    pub fn switch_pressed(&mut self) -> (r: Result<bool, S::Error>)
        ensures
            final(self).vertical == old(self).vertical,
            final(self).horizontal == old(self).horizontal,
            final(self).switch.log() == old(self).switch.log().push(r),
    {
        self.switch.is_active()
    }

    /// Read the full position: the vertical axis first, and the
    /// horizontal axis only if the vertical sample came back ready.
    ///
    /// A vertical "would block" short-circuits the whole call to
    /// "would block" without touching the horizontal axis; a failure on
    /// either axis is returned tagged with that axis, unchanged. Only
    /// when both axes report ready on the same call does the pair
    /// (vertical, horizontal) come back. No retry state is kept: the
    /// caller drives every retry. See [`position_step`] for the exact
    /// relation.
    pub fn get_position(&mut self) -> (r: ReadResult<
        (Normalized, Normalized),
        JoystickError<AV::Error, AH::Error>,
    >)
        requires
            old(self).wf(),
        ensures
            final(self).wf(),
            position_step(*old(self), *final(self), r),
    {
        let v = match self.get_vertical() {
            ReadResult::Ready(value) => value,
            ReadResult::WouldBlock => {
                return ReadResult::WouldBlock;
            },
            ReadResult::Failed(e) => {
                return ReadResult::Failed(JoystickError::VerticalADCError(e));
            },
        };
        let h = match self.get_horizontal() {
            ReadResult::Ready(value) => value,
            ReadResult::WouldBlock => {
                return ReadResult::WouldBlock;
            },
            ReadResult::Failed(e) => {
                return ReadResult::Failed(JoystickError::HorizontalADCError(e));
            },
        };
        ReadResult::Ready((v, h))
    }
}

} // verus!
