use lintx::adc::AdcRawMsg;
use lintx::joy_dev::{apply_axis_event, StickAxis};

#[test]
fn axis_event_replaces_one_input() {
    let last = AdcRawMsg { value: [1, 2, 3, 4] };
    assert_eq!(apply_axis_event(&last, StickAxis::LeftX, -7).value, [-7, 2, 3, 4]);
    assert_eq!(apply_axis_event(&last, StickAxis::LeftY, -7).value, [1, -7, 3, 4]);
    assert_eq!(apply_axis_event(&last, StickAxis::RightX, -7).value, [1, 2, -7, 4]);
    assert_eq!(apply_axis_event(&last, StickAxis::RightY, -7).value, [1, 2, 3, -7]);
    assert_eq!(last.value, [1, 2, 3, 4]);
}

#[test]
fn axis_events_accumulate() {
    let mut scan = AdcRawMsg::default();
    for (axis, value) in [
        (StickAxis::RightY, 40),
        (StickAxis::LeftX, 10),
        (StickAxis::RightY, i16::MIN),
        (StickAxis::LeftY, i16::MAX),
    ] {
        scan = apply_axis_event(&scan, axis, value);
    }
    assert_eq!(scan.value, [10, i16::MAX, 0, i16::MIN]);
}
