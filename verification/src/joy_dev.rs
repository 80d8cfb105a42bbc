//! Readings from a joystick device: each axis event replaces one input of
//! the last scan.

use vstd::prelude::*;
use crate::adc::AdcRawMsg;

verus! {

/// The axes of the two sticks of a joystick device.
#[derive(Clone, Copy, Debug, PartialEq, Eq, Structural)]
pub enum StickAxis {
    LeftX,
    LeftY,
    RightX,
    RightY,
}

impl StickAxis {
    /// The input that the axis feeds.
    pub open spec fn slot(self) -> int {
        match self {
            StickAxis::LeftX => 0,
            StickAxis::LeftY => 1,
            StickAxis::RightX => 2,
            StickAxis::RightY => 3,
        }
    }
}

/// The scan that follows `last` when `axis` reports `value`: `value` on the
/// input of that axis, the other inputs as before.
pub fn apply_axis_event(last: &AdcRawMsg, axis: StickAxis, value: i16) -> (r: AdcRawMsg)
    ensures
        r.value@ == last.value@.update(axis.slot(), value),
{
    let v = &last.value;
    let value: [i16; 4] = match axis {
        StickAxis::LeftX => [value, v[1], v[2], v[3]],
        StickAxis::LeftY => [v[0], value, v[2], v[3]],
        StickAxis::RightX => [v[0], v[1], value, v[3]],
        StickAxis::RightY => [v[0], v[1], v[2], value],
    };
    AdcRawMsg { value }
}

} // verus!
