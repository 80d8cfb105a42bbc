//! The mixer: from one raw scan and the calibration record to the normalized
//! position of each control axis.

use vstd::prelude::*;
use crate::adc::AdcRawMsg;
use crate::calibrate::{CalibrationData, ChannelInfo, JoystickChannel};

verus! {

/// The normalized value of a stick at the top of its range.
pub const MIX_FULL_SCALE: u16 = 10000;

/// The normalized position of each control axis, from 0 to 10000.
#[derive(Clone, Copy, Debug, PartialEq, Eq, Structural)]
pub struct MixerOutMsg {
    pub thrust: u16,
    pub direction: u16,
    pub aileron: u16,
    pub elevator: u16,
}

/// `v` held into the range from `lo` to `hi`.
pub open spec fn clamped(v: int, lo: int, hi: int) -> int {
    if v < lo {
        lo
    } else if v > hi {
        hi
    } else {
        v
    }
}

/// How far `v`, held into the range from `min` to `max`, lies above `min`,
/// in ten-thousandths of the range, rounded down.
pub open spec fn travel(v: int, min: int, max: int) -> int {
    (clamped(v, min, max) - min) * 10000 / (max - min)
}

/// The normalized position that `info` gives to the scan `raw`.
pub open spec fn mixed(info: ChannelInfo, raw: AdcRawMsg) -> int {
    let t = travel(raw.slot(info.index as int), info.min as int, info.max as int);
    if info.rev {
        10000 - t
    } else {
        t
    }
}

/// The travel of a value lies between 0 and 10000 whenever the range is not
/// empty.
pub proof fn lemma_travel_bounds(v: int, min: int, max: int)
    requires
        min < max,
    ensures
        0 <= travel(v, min, max) <= 10000,
        v <= min ==> travel(v, min, max) == 0,
        v >= max ==> travel(v, min, max) == 10000,
{
    let d = clamped(v, min, max) - min;
    let w = max - min;
    assert(0 <= d * 10000 / w <= 10000) by (nonlinear_arith)
        requires
            0 <= d <= w,
            0 < w,
    ;
    if v <= min {
        assert(0int * 10000 / w == 0) by (nonlinear_arith)
            requires
                0 < w,
        ;
    }
    if v >= max {
        assert(w * 10000 / w == 10000) by (nonlinear_arith)
            requires
                0 < w,
        ;
    }
}

/// Whatever the reading, an axis with a range that is not empty is mixed to
/// a position between 0 and 10000.
pub proof fn lemma_mixed_bounds(info: ChannelInfo, raw: AdcRawMsg)
    requires
        info.min < info.max,
    ensures
        0 <= mixed(info, raw) <= 10000,
{
    lemma_travel_bounds(raw.slot(info.index as int), info.min as int, info.max as int);
}

/// Reversing an axis mirrors its output about the middle of the scale.
pub proof fn lemma_reverse_mirrors(info: ChannelInfo, flipped: ChannelInfo, raw: AdcRawMsg)
    requires
        flipped.index == info.index,
        flipped.min == info.min,
        flipped.max == info.max,
        flipped.rev == !info.rev,
    ensures
        mixed(flipped, raw) == 10000 - mixed(info, raw),
{
}

/// Normalizes the reading of one control axis.
///
/// The axis must read an input that exists, over a range that is not empty:
/// a record that `CalibrationData::check` accepts meets this for every axis.
pub fn cal_mixout(channel: JoystickChannel, raw: &AdcRawMsg, cal_data: &CalibrationData) -> (r: u16)
    requires
        channel.ordinal() < cal_data.channel_infos@.len(),
        cal_data.channel_infos@[channel.ordinal()].usable(),
    ensures
        r == mixed(cal_data.channel_infos@[channel.ordinal()], *raw),
        r <= MIX_FULL_SCALE,
{
    let info = &cal_data.channel_infos[channel.index()];
    let reading: i16 = raw.value[info.index as usize];
    let held: i16 = if reading < info.min {
        info.min
    } else if reading > info.max {
        info.max
    } else {
        reading
    };
    let above: u32 = (held as i32 - info.min as i32) as u32;
    let width: u32 = (info.max as i32 - info.min as i32) as u32;
    proof {
        lemma_travel_bounds(reading as int, info.min as int, info.max as int);
    }
    let ratio: u32 = above * 10000 / width;
    if info.rev {
        (10000 - ratio) as u16
    } else {
        ratio as u16
    }
}

/// Normalizes one scan: the position of every control axis.
pub fn mix(raw: &AdcRawMsg, cal_data: &CalibrationData) -> (r: MixerOutMsg)
    requires
        cal_data.mixable(),
    ensures
        r.thrust == mixed(cal_data.channel_infos@[0], *raw),
        r.direction == mixed(cal_data.channel_infos@[1], *raw),
        r.aileron == mixed(cal_data.channel_infos@[2], *raw),
        r.elevator == mixed(cal_data.channel_infos@[3], *raw),
        r.in_range(),
{
    MixerOutMsg {
        thrust: cal_mixout(JoystickChannel::Thrust, raw, cal_data),
        direction: cal_mixout(JoystickChannel::Direction, raw, cal_data),
        aileron: cal_mixout(JoystickChannel::Aileron, raw, cal_data),
        elevator: cal_mixout(JoystickChannel::Elevator, raw, cal_data),
    }
}

impl MixerOutMsg {
    /// No axis lies above the top of the scale.
    pub open spec fn in_range(self) -> bool {
        &&& self.thrust <= MIX_FULL_SCALE
        &&& self.direction <= MIX_FULL_SCALE
        &&& self.aileron <= MIX_FULL_SCALE
        &&& self.elevator <= MIX_FULL_SCALE
    }
}

} // verus!
