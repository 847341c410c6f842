use joystick::hal::{AdcSource, DigitalInput};
use joystick::joystick::{Joystick, JoystickError};
use joystick::reading::ReadResult;
use joystick::scale::{scale, Normalized};
use joystick::scripted::{ScriptedAdc, ScriptedPin};

type TestStick = Joystick<ScriptedAdc, ScriptedAdc, ScriptedPin>;

/// A normalized position as the floating value it stands for.
fn to_f32(n: Normalized) -> f32 {
    (n.bits as f64 / 4294967296.0) as f32
}

fn adc_with(outcomes: Vec<ReadResult<u16, u64>>) -> ScriptedAdc {
    ScriptedAdc::new(outcomes)
}

fn switch_with(answers: Vec<Result<bool, u64>>) -> ScriptedPin {
    ScriptedPin::new(answers)
}

/// A joystick with the given per-axis readings queued, resolution 8 on
/// both axes, and the given switch answers queued.
fn stick(
    vertical: Vec<ReadResult<u16, u64>>,
    horizontal: Vec<ReadResult<u16, u64>>,
    answers: Vec<Result<bool, u64>>,
) -> TestStick {
    Joystick::new(
        0,
        adc_with(vertical),
        8,
        1,
        adc_with(horizontal),
        8,
        switch_with(answers),
    )
}

fn ready_pair(
    r: ReadResult<(Normalized, Normalized), JoystickError<u64, u64>>,
) -> (Normalized, Normalized) {
    match r {
        ReadResult::Ready(pair) => pair,
        ReadResult::WouldBlock => panic!("position read reported would-block"),
        ReadResult::Failed(_) => panic!("position read failed"),
    }
}

#[test]
fn test_switch_pressed() {
    for state in [true, false] {
        let mut joystick = stick(
            vec![ReadResult::Ready(0)],
            vec![ReadResult::Ready(0)],
            vec![Ok(state)],
        );
        assert_eq!(joystick.switch_pressed().unwrap(), state)
    }
}

#[test]
fn test_get_position() {
    for v in 0..=u8::MAX {
        for h in 0..=u8::MAX {
            let mut joystick = stick(
                vec![ReadResult::Ready(v as u16)],
                vec![ReadResult::Ready(h as u16)],
                vec![Ok(false)],
            );
            let (pos_x, pos_y) = ready_pair(joystick.get_position());
            assert_eq!(to_f32(pos_x), v as f32 / 256.);
            assert_eq!(to_f32(pos_y), h as f32 / 256.);
        }
    }
}

#[test]
fn scaling_concrete_values() {
    // resolution 8: raw 128 is one half, raw 0 is zero, raw 255 is 255/256
    assert_eq!(to_f32(scale(128, 8)), 0.5);
    assert_eq!(to_f32(scale(0, 8)), 0.0);
    assert_eq!(to_f32(scale(255, 8)), 0.99609375);
    // resolution 1: raw 1 is one half
    assert_eq!(to_f32(scale(1, 1)), 0.5);
    // resolution 16: the largest in-range raw sample
    assert_eq!(to_f32(scale(65535, 16)), 65535. / 65536.);
    // resolution 0: the scale factor is one
    assert_eq!(to_f32(scale(0, 0)), 0.0);
    // the largest meaningful resolution
    assert_eq!(to_f32(scale(5, 31)), 5. / 2147483648.);
}

#[test]
fn scaling_exact_over_a_range() {
    for resolution in 1..=16u32 {
        let span = 1u32 << resolution;
        for raw in [0, 1, span / 2, span - 1] {
            let n = scale(raw as u16, resolution);
            // exactly raw / 2^resolution: cross-multiplied in integers
            assert_eq!(n.bits as u128 * (1u128 << resolution), (raw as u128) << 32);
            assert!(n.bits < 1u64 << 32);
        }
    }
}

#[test]
fn vertical_is_sampled_before_horizontal() {
    let mut joystick = stick(
        vec![ReadResult::Ready(128)],
        vec![ReadResult::Ready(64)],
        vec![],
    );
    ready_pair(joystick.get_position());
    // each axis saw exactly one request, on its own channel
    assert_eq!(joystick.vertical.adc.served.len(), 1);
    assert_eq!(joystick.vertical.adc.served[0].channel, 0);
    assert_eq!(joystick.horizontal.adc.served.len(), 1);
    assert_eq!(joystick.horizontal.adc.served[0].channel, 1);
}

#[test]
fn not_ready_vertical_short_circuits() {
    let mut joystick = stick(
        vec![ReadResult::WouldBlock],
        vec![ReadResult::Ready(64)],
        vec![],
    );
    assert!(matches!(joystick.get_position(), ReadResult::WouldBlock));
    // the vertical axis was polled, the horizontal axis was not touched
    assert_eq!(joystick.vertical.adc.served.len(), 1);
    assert_eq!(joystick.horizontal.adc.served.len(), 0);
}

#[test]
fn not_ready_horizontal_reports_would_block() {
    let mut joystick = stick(
        vec![ReadResult::Ready(128)],
        vec![ReadResult::WouldBlock],
        vec![],
    );
    assert!(matches!(joystick.get_position(), ReadResult::WouldBlock));
    assert_eq!(joystick.vertical.adc.served.len(), 1);
    assert_eq!(joystick.horizontal.adc.served.len(), 1);
}

#[test]
fn retry_after_not_ready_succeeds() {
    let mut joystick = stick(
        vec![ReadResult::WouldBlock, ReadResult::Ready(128)],
        vec![ReadResult::Ready(64)],
        vec![],
    );
    assert!(matches!(joystick.get_position(), ReadResult::WouldBlock));
    let (pos_v, pos_h) = ready_pair(joystick.get_position());
    assert_eq!(to_f32(pos_v), 0.5);
    assert_eq!(to_f32(pos_h), 0.25);
}

#[test]
fn vertical_failure_is_tagged() {
    let mut joystick = stick(
        vec![ReadResult::Failed(7)],
        vec![ReadResult::Ready(64)],
        vec![],
    );
    match joystick.get_position() {
        ReadResult::Failed(JoystickError::VerticalADCError(e)) => assert_eq!(e, 7),
        _ => panic!("expected a vertical ADC error"),
    }
    // the failing vertical read also short-circuits the horizontal one
    assert_eq!(joystick.horizontal.adc.served.len(), 0);
}

#[test]
fn horizontal_failure_is_tagged() {
    let mut joystick = stick(
        vec![ReadResult::Ready(128)],
        vec![ReadResult::Failed(9)],
        vec![],
    );
    match joystick.get_position() {
        ReadResult::Failed(JoystickError::HorizontalADCError(e)) => assert_eq!(e, 9),
        _ => panic!("expected a horizontal ADC error"),
    }
}

#[test]
fn switch_failure_passes_through() {
    let mut joystick = stick(vec![], vec![], vec![Err(3)]);
    assert_eq!(joystick.switch_pressed(), Err(3));
    // querying the switch touches neither ADC
    assert_eq!(joystick.vertical.adc.served.len(), 0);
    assert_eq!(joystick.horizontal.adc.served.len(), 0);
}

#[test]
fn end_to_end_scenario() {
    // resolution 8 on both axes, readings (vertical 128, horizontal 64),
    // switch inactive
    let mut joystick = stick(
        vec![ReadResult::Ready(128)],
        vec![ReadResult::Ready(64)],
        vec![Ok(false)],
    );
    let (pos_v, pos_h) = ready_pair(joystick.get_position());
    assert_eq!(to_f32(pos_v), 0.5);
    assert_eq!(to_f32(pos_h), 0.25);
    assert_eq!(joystick.switch_pressed(), Ok(false));
}

#[test]
fn axes_do_not_interfere() {
    let mut joystick = stick(
        vec![ReadResult::Ready(1), ReadResult::Ready(2)],
        vec![ReadResult::Ready(9)],
        vec![],
    );
    // repeated vertical reads consume nothing of the horizontal axis
    assert!(matches!(joystick.get_vertical(), ReadResult::Ready(_)));
    assert!(matches!(joystick.get_vertical(), ReadResult::Ready(_)));
    assert_eq!(joystick.horizontal.adc.served.len(), 0);
    // the horizontal axis still sees its own first reading
    match joystick.get_horizontal() {
        ReadResult::Ready(n) => assert_eq!(to_f32(n), 9. / 256.),
        _ => panic!("expected a horizontal reading"),
    }
    assert_eq!(joystick.vertical.adc.served.len(), 2);
    assert_eq!(joystick.horizontal.adc.served.len(), 1);
}

#[test]
fn direct_axis_reads_scale_by_each_resolution() {
    // different resolutions on the two axes share one denominator
    let mut joystick = Joystick::new(
        4,
        adc_with(vec![ReadResult::Ready(128)]),
        8,
        5,
        adc_with(vec![ReadResult::Ready(512)]),
        10,
        switch_with(vec![]),
    );
    let (pos_v, pos_h) = ready_pair(joystick.get_position());
    // 128 / 2^8 and 512 / 2^10 are both one half
    assert_eq!(pos_v, pos_h);
    assert_eq!(to_f32(pos_v), 0.5);
}

#[test]
fn exhausted_adc_script_reports_would_block() {
    let mut adc = adc_with(vec![]);
    assert!(matches!(adc.sample(0), ReadResult::WouldBlock));
}

#[test]
fn exhausted_pin_script_reports_an_error() {
    let mut pin = switch_with(vec![Ok(true)]);
    assert_eq!(pin_read(&mut pin), Ok(true));
    assert_eq!(pin_read(&mut pin), Err(ScriptedPin::EXHAUSTED));
}

fn pin_read(pin: &mut ScriptedPin) -> Result<bool, u64> {
    pin.is_active()
}
