use lintx::gampad::{axis_report_byte, report_of, update_report, REPORT_LENGTH};
use lintx::mixer::MixerOutMsg;

#[test]
fn axis_bytes_over_the_scale() {
    assert_eq!(axis_report_byte(0) as i8, -127);
    assert_eq!(axis_report_byte(5000) as i8, 0);
    assert_eq!(axis_report_byte(10000) as i8, 127);
    assert_eq!(axis_report_byte(2500) as i8, -63);
    assert_eq!(axis_report_byte(7500) as i8, 63);
    assert_eq!(axis_report_byte(4999) as i8, 0);
    assert_eq!(axis_report_byte(5001) as i8, 0);
    assert_eq!(axis_report_byte(4960) as i8, -1);
    assert_eq!(axis_report_byte(5040) as i8, 1);
    assert_eq!(axis_report_byte(0), 0x81);
    for v in 0..=10000u16 {
        let expected = ((v as i32 - 5000) * 127 / 5000) as i8;
        assert_eq!(axis_report_byte(v) as i8, expected);
        assert!((-127..=127).contains(&expected));
    }
}

#[test]
fn axis_byte_beyond_the_scale_keeps_the_low_bits() {
    for v in [10001u16, 15079, 15080, 20000, u16::MAX] {
        let expected = ((v as i32 - 5000) * 127 / 5000) as i8 as u8;
        assert_eq!(axis_report_byte(v), expected);
    }
    assert_eq!(axis_report_byte(u16::MAX), 1);
}

#[test]
fn report_holds_buttons_then_axes() {
    assert_eq!(REPORT_LENGTH, 5);
    assert_eq!(update_report(0xA5, &[0, 5000, 10000, 2500]), [0xA5, 0x81, 0, 127, 0xC1]);
    assert_eq!(update_report(0, &[5000; 4]), [0; 5]);
}

#[test]
fn report_of_positions_has_no_button_and_thrust_first() {
    let msg = MixerOutMsg { thrust: 0, direction: 10000, aileron: 7500, elevator: 5000 };
    assert_eq!(report_of(&msg), [0, 0x81, 127, 63, 0]);
}
