//! The gamepad report: a byte of buttons and one signed byte per control
//! axis.

use vstd::prelude::*;
use crate::arith::quotient_toward_zero;
use crate::mixer::MixerOutMsg;

verus! {

/// Length of a report in bytes.
pub const REPORT_LENGTH: usize = 5;

/// The deflection that stands for the normalized position `value`: -127 at
/// the bottom of the scale, 0 in the middle, 127 at the top.
pub open spec fn axis_value(value: int) -> int {
    quotient_toward_zero((value - 5000) * 127, 5000)
}

/// The byte that carries the deflection for `value`: its lowest eight bits,
/// a negative deflection in two's complement.
pub open spec fn axis_byte(value: int) -> int {
    axis_value(value) % 256
}

/// For a position on the scale the deflection fits the signed byte.
pub proof fn lemma_axis_value_bounds(value: int)
    requires
        0 <= value <= 10000,
    ensures
        -127 <= axis_value(value) <= 127,
        value == 0 ==> axis_value(value) == -127,
        value == 5000 ==> axis_value(value) == 0,
        value == 10000 ==> axis_value(value) == 127,
{
}

/// Computes the byte that carries the deflection for `value`.
pub fn axis_report_byte(value: u16) -> (r: u8)
    ensures
        r == axis_byte(value as int),
{
    let offset: i32 = (value as i32 - 5000) * 127;
    let deflection: i32 = if offset >= 0 {
        offset / 5000
    } else {
        let m: i32 = -offset;
        -(m / 5000)
    };
    if deflection < 0 {
        (deflection + 256) as u8
    } else {
        (deflection % 256) as u8
    }
}

/// The report for the buttons `button_status` and the positions `channel`.
pub fn update_report(button_status: u8, channel: &[u16; 4]) -> (r: [u8; 5])
    ensures
        r@ == seq![
            button_status,
            axis_byte(channel@[0] as int) as u8,
            axis_byte(channel@[1] as int) as u8,
            axis_byte(channel@[2] as int) as u8,
            axis_byte(channel@[3] as int) as u8,
        ],
{
    let r: [u8; 5] = [
        button_status,
        axis_report_byte(channel[0]),
        axis_report_byte(channel[1]),
        axis_report_byte(channel[2]),
        axis_report_byte(channel[3]),
    ];
    assert(r@ =~= seq![
        button_status,
        axis_byte(channel@[0] as int) as u8,
        axis_byte(channel@[1] as int) as u8,
        axis_byte(channel@[2] as int) as u8,
        axis_byte(channel@[3] as int) as u8,
    ]);
    r
}

/// The report for the positions `mix_out` with no button pressed: thrust,
/// direction, aileron and elevator, in this order.
pub fn report_of(mix_out: &MixerOutMsg) -> (r: [u8; 5])
    ensures
        r@ == seq![
            0u8,
            axis_byte(mix_out.thrust as int) as u8,
            axis_byte(mix_out.direction as int) as u8,
            axis_byte(mix_out.aileron as int) as u8,
            axis_byte(mix_out.elevator as int) as u8,
        ],
{
    let channel: [u16; 4] = [mix_out.thrust, mix_out.direction, mix_out.aileron, mix_out.elevator];
    update_report(0, &channel)
}

} // verus!
