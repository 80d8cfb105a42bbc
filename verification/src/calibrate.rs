//! Calibration of the sticks: which input each control axis reads, and the
//! range of counts that the input delivers.

use vstd::prelude::*;
use crate::adc::{AdcRawMsg, ADC_SLOTS};
use crate::sample::{CalSample, is_largest_change, is_max_of_slot, is_min_of_slot};

verus! {

/// A type whose values can be listed in declaration order.
pub trait EnumIter where Self: Sized + 'static {
    const ITER: &'static [Self];
}

/// The control axes, in the order by which every per-axis table is indexed.
#[derive(Clone, Copy, Debug, PartialEq, Eq, Structural)]
pub enum JoystickChannel {
    Thrust,
    Direction,
    Aileron,
    Elevator,
}

impl JoystickChannel {
    pub const ITER: [Self; 4] = [Self::Thrust, Self::Direction, Self::Aileron, Self::Elevator];

    pub const STRS: [&'static str; 4] = ["Thrust", "Direction", "Aileron", "Elevator"];

    /// The position of the axis in declaration order.
    pub open spec fn ordinal(self) -> int {
        match self {
            JoystickChannel::Thrust => 0,
            JoystickChannel::Direction => 1,
            JoystickChannel::Aileron => 2,
            JoystickChannel::Elevator => 3,
        }
    }

    /// Computes the position of the axis in declaration order.
    pub fn index(self) -> (r: usize)
        ensures
            r == self.ordinal(),
            r < CHANNEL_COUNT,
    {
        match self {
            JoystickChannel::Thrust => 0,
            JoystickChannel::Direction => 1,
            JoystickChannel::Aileron => 2,
            JoystickChannel::Elevator => 3,
        }
    }
}

/// Number of control axes.
pub const CHANNEL_COUNT: usize = 4;

/// What calibration found out about one control axis.
#[derive(Clone, Debug)]
pub struct ChannelInfo {
    pub name: String,
    /// The input that the axis reads.
    pub index: u8,
    /// Lowest count seen on that input.
    pub min: i16,
    /// Highest count seen on that input.
    pub max: i16,
    /// Whether the output runs against the input.
    pub rev: bool,
}

impl Default for ChannelInfo {
    fn default() -> (r: Self)
        ensures
            r.name@ == Seq::<char>::empty(),
            r.index == 0,
            r.min == 0,
            r.max == 0,
            !r.rev,
    {
        ChannelInfo { name: String::new(), index: 0, min: 0, max: 0, rev: false }
    }
}

impl ChannelInfo {
    /// The axis reads an input that exists and has a range that is not empty.
    pub open spec fn usable(self) -> bool {
        self.index < ADC_SLOTS && self.min < self.max
    }
}

/// The result of calibration: one entry per control axis, in axis order.
///
/// Nothing keeps two axes from reading the same input: an operator who moves
/// one stick for two axes gets a record in which both follow that stick.
pub struct CalibrationData {
    pub channel_infos: Vec<ChannelInfo>,
    /// The input assigned to each axis, in axis order.
    pub channel_indexs: Vec<u8>,
}

/// Why a record cannot be mixed with.
#[derive(Clone, Copy, Debug, PartialEq, Eq, Structural)]
pub enum RecordFault {
    /// The record has no entry for some axis.
    MissingChannel,
    /// The entry of this axis reads an input that does not exist.
    NoSuchInput { channel: usize },
    /// The entry of this axis has no reading between its bounds: the
    /// greatest is not above the least.
    EmptyRange { channel: usize },
}

impl CalibrationData {
    /// The record has a usable entry for every axis.
    pub open spec fn mixable(&self) -> bool {
        &&& self.channel_infos@.len() >= CHANNEL_COUNT
        &&& forall|c: int| 0 <= c < CHANNEL_COUNT ==> (#[trigger] self.channel_infos@[c]).usable()
    }

    /// Tells whether the record can be mixed with, and if not, what is wrong
    /// with the first axis that has a fault.
    ///
    /// A stick that was never moved during the sweep leaves its axis with an
    /// empty range. Such a record is refused here, before any scan is mixed.
    pub fn check(&self) -> (r: Result<(), RecordFault>)
        ensures
            r is Ok <==> self.mixable(),
            r == Err::<(), RecordFault>(RecordFault::MissingChannel) <==> self.channel_infos@.len()
                < CHANNEL_COUNT,
            forall|channel: usize|
                r == Err::<(), RecordFault>(RecordFault::NoSuchInput { channel }) <==> {
                    &&& self.first_fault_at(channel as int)
                    &&& self.channel_infos@[channel as int].index >= ADC_SLOTS
                },
            forall|channel: usize|
                r == Err::<(), RecordFault>(RecordFault::EmptyRange { channel }) <==> {
                    &&& self.first_fault_at(channel as int)
                    &&& self.channel_infos@[channel as int].index < ADC_SLOTS
                },
    {
        if self.channel_infos.len() < CHANNEL_COUNT {
            return Err(RecordFault::MissingChannel);
        }
        let mut channel: usize = 0;
        while channel < CHANNEL_COUNT
            invariant
                channel <= CHANNEL_COUNT,
                self.channel_infos@.len() >= CHANNEL_COUNT,
                forall|c: int| 0 <= c < channel ==> (#[trigger] self.channel_infos@[c]).usable(),
            decreases CHANNEL_COUNT - channel,
        {
            let info = &self.channel_infos[channel];
            if info.index as usize >= ADC_SLOTS {
                return Err(RecordFault::NoSuchInput { channel });
            }
            if info.min >= info.max {
                return Err(RecordFault::EmptyRange { channel });
            }
            channel += 1;
        }
        Ok(())
    }

    /// Every axis has an entry, that of axis number `channel` is not usable,
    /// and those of the axes before it are.
    pub open spec fn first_fault_at(&self, channel: int) -> bool {
        &&& self.channel_infos@.len() >= CHANNEL_COUNT
        &&& 0 <= channel < CHANNEL_COUNT
        &&& !self.channel_infos@[channel].usable()
        &&& forall|c: int| 0 <= c < channel ==> (#[trigger] self.channel_infos@[c]).usable()
    }
}

/// The name under which axis number `channel` is stored.
pub open spec fn channel_name(channel: int) -> Seq<char> {
    JoystickChannel::STRS@[channel]@
}

/// How long the operator gets to centre the sticks, in seconds.
pub const CENTER_SECONDS: u32 = 5;

/// How long the operator gets to move a stick to its end, in seconds.
pub const PUSH_SETTLE_SECONDS: u32 = 2;

/// How long one stick is watched at its end, in seconds.
pub const PUSH_SAMPLE_SECONDS: u32 = 3;

/// How long the sweep of all sticks is watched, in seconds.
pub const SWEEP_SAMPLE_SECONDS: u32 = 10;

/// Where the calibration stands.
#[derive(Clone, Copy, Debug, PartialEq, Eq, Structural)]
pub enum CalibrateState {
    /// Nothing done yet: the sticks are being centred.
    Idle,
    /// The stick of the axis with this number is held at one end.
    LowestCheck(u8),
    /// All sticks are swept through their range.
    MinMaxCheck,
    /// The record is complete.
    Finish,
}

/// The state that follows `state`.
pub open spec fn next_state(state: CalibrateState) -> CalibrateState {
    match state {
        CalibrateState::Idle => CalibrateState::LowestCheck(0),
        CalibrateState::LowestCheck(x) => if x + 1 == CHANNEL_COUNT {
            CalibrateState::MinMaxCheck
        } else {
            CalibrateState::LowestCheck((x + 1) as u8)
        },
        CalibrateState::MinMaxCheck => CalibrateState::Finish,
        CalibrateState::Finish => CalibrateState::Finish,
    }
}

/// The state reached from `Idle` by `steps` steps.
pub open spec fn state_after(steps: nat) -> CalibrateState
    decreases steps,
{
    if steps == 0 {
        CalibrateState::Idle
    } else {
        next_state(state_after((steps - 1) as nat))
    }
}

/// From `Idle`, one step starts the checks of the single axes; each axis
/// takes one step, in axis order; the sweep of all sticks takes one more;
/// after that the calibration is finished and stays so.
pub proof fn lemma_state_progression(steps: nat)
    ensures
        steps == 0 ==> state_after(steps) == CalibrateState::Idle,
        1 <= steps <= CHANNEL_COUNT ==> state_after(steps) == CalibrateState::LowestCheck(
            (steps - 1) as u8,
        ),
        steps == CHANNEL_COUNT + 1 ==> state_after(steps) == CalibrateState::MinMaxCheck,
        steps >= CHANNEL_COUNT + 2 ==> state_after(steps) == CalibrateState::Finish,
    decreases steps,
{
    if steps > 0 {
        lemma_state_progression((steps - 1) as nat);
    }
}

/// What the operator and the sampler have to do before the next step.
#[derive(Clone, Copy, Debug, PartialEq, Eq, Structural)]
pub enum CalibrateAction {
    /// Ask for centred sticks and wait; the next step needs no scans.
    Settle { seconds: u32 },
    /// Ask for the motion that the state calls for, wait `prewait_seconds`,
    /// then collect scans for `sample_seconds` and hand them to the next step.
    Sample { prewait_seconds: u32, sample_seconds: u32 },
    /// Show the record; no further step changes anything.
    Report,
}

/// The action that `state` calls for.
pub open spec fn action_of(state: CalibrateState) -> CalibrateAction {
    match state {
        CalibrateState::Idle => CalibrateAction::Settle { seconds: CENTER_SECONDS },
        CalibrateState::LowestCheck(_) => CalibrateAction::Sample {
            prewait_seconds: PUSH_SETTLE_SECONDS,
            sample_seconds: PUSH_SAMPLE_SECONDS,
        },
        CalibrateState::MinMaxCheck => CalibrateAction::Sample {
            prewait_seconds: 0,
            sample_seconds: SWEEP_SAMPLE_SECONDS,
        },
        CalibrateState::Finish => CalibrateAction::Report,
    }
}

/// `info` is the entry of axis number `channel`, which reads input `slot`,
/// as the sweep recorded in `window` gives it.
pub open spec fn is_channel_entry(
    info: ChannelInfo,
    channel: int,
    slot: u8,
    window: Seq<AdcRawMsg>,
) -> bool {
    &&& info.index == slot
    &&& is_min_of_slot(window, slot as int, info.min as int)
    &&& is_max_of_slot(window, slot as int, info.max as int)
    &&& !info.rev
    &&& info.name@ == channel_name(channel)
}

/// A calibration in progress: the state and the record as far as it is known.
///
/// Only `new` and `do_step` make or change one, so every calibration that a
/// caller holds is well formed.
pub struct Calibration {
    state: CalibrateState,
    data: CalibrationData,
}

impl Calibration {
    /// Where the calibration stands.
    pub closed spec fn progress(&self) -> CalibrateState {
        self.state
    }

    /// The record as far as it is known.
    pub closed spec fn record(&self) -> CalibrationData {
        self.data
    }

    /// The record holds what the steps taken so far have found, and nothing
    /// else.
    pub open spec fn wf(&self) -> bool {
        let slots = self.record().channel_indexs@;
        let infos = self.record().channel_infos@;
        &&& forall|c: int| 0 <= c < slots.len() ==> #[trigger] slots[c] < ADC_SLOTS
        &&& match self.progress() {
            CalibrateState::Idle => slots.len() == 0 && infos.len() == 0,
            CalibrateState::LowestCheck(x) => x < CHANNEL_COUNT && slots.len() == x && infos.len()
                == 0,
            CalibrateState::MinMaxCheck => slots.len() == CHANNEL_COUNT && infos.len() == 0,
            CalibrateState::Finish => {
                &&& slots.len() == CHANNEL_COUNT
                &&& infos.len() == CHANNEL_COUNT
                &&& forall|c: int|
                    0 <= c < CHANNEL_COUNT ==> {
                        &&& (#[trigger] infos[c]).index == slots[c]
                        &&& infos[c].min <= infos[c].max
                        &&& !infos[c].rev
                        &&& infos[c].name@ == channel_name(c)
                    }
            },
        }
    }

    /// A calibration that has not begun.
    pub fn new() -> (r: Self)
        ensures
            r.progress() == CalibrateState::Idle,
            r.record().channel_infos@.len() == 0,
            r.record().channel_indexs@.len() == 0,
            r.wf(),
    {
        Calibration {
            state: CalibrateState::Idle,
            data: CalibrationData { channel_infos: Vec::new(), channel_indexs: Vec::new() },
        }
    }

    /// Where the calibration stands.
    pub fn state(&self) -> (r: CalibrateState)
        ensures
            r == self.progress(),
    {
        self.state
    }

    /// The record as far as it is known.
    pub fn data(&self) -> (r: &CalibrationData)
        ensures
            *r == self.record(),
    {
        &self.data
    }

    /// Gives up the calibration for its record.
    pub fn into_data(self) -> (r: CalibrationData)
        ensures
            r == self.record(),
    {
        self.data
    }

    /// What has to happen before the next step.
    pub fn next_action(&self) -> (r: CalibrateAction)
        ensures
            r == action_of(self.progress()),
    {
        match self.state {
            CalibrateState::Idle => CalibrateAction::Settle { seconds: CENTER_SECONDS },
            CalibrateState::LowestCheck(_) => CalibrateAction::Sample {
                prewait_seconds: PUSH_SETTLE_SECONDS,
                sample_seconds: PUSH_SAMPLE_SECONDS,
            },
            CalibrateState::MinMaxCheck => CalibrateAction::Sample {
                prewait_seconds: 0,
                sample_seconds: SWEEP_SAMPLE_SECONDS,
            },
            CalibrateState::Finish => CalibrateAction::Report,
        }
    }

    /// Whether the record is complete, so that stepping can stop.
    pub fn is_finished(&self) -> (r: bool)
        ensures
            r == (self.progress() == CalibrateState::Finish),
    {
        match self.state {
            CalibrateState::Finish => true,
            _ => false,
        }
    }

    /// Takes one step. `sample` holds the scans that the action of the
    /// current state asked for; where it asked for none, `sample` is not read.
    ///
    /// A check of a single axis appends the input that moved most to the
    /// assignment. The sweep records for each axis, in axis order, the least
    /// and the greatest reading of its input. A finished calibration is left
    /// as it is.
    pub fn do_step(&mut self, sample: &CalSample)
        requires
            old(self).wf(),
            action_of(old(self).progress()) is Sample ==> sample.list@.len() > 0,
        ensures
            final(self).wf(),
            final(self).progress() == next_state(old(self).progress()),
            match old(self).progress() {
                CalibrateState::Idle => final(self).record() == old(self).record(),
                CalibrateState::LowestCheck(_) => {
                    &&& final(self).record().channel_infos@ == old(self).record().channel_infos@
                    &&& final(self).record().channel_indexs@.len() == old(
                        self,
                    ).record().channel_indexs@.len() + 1
                    &&& final(self).record().channel_indexs@.drop_last() == old(
                        self,
                    ).record().channel_indexs@
                    &&& is_largest_change(
                        sample.list@,
                        final(self).record().channel_indexs@.last() as int,
                    )
                },
                CalibrateState::MinMaxCheck => {
                    &&& final(self).record().channel_indexs@ == old(self).record().channel_indexs@
                    &&& final(self).record().channel_infos@.len() == CHANNEL_COUNT
                    &&& forall|c: int|
                        0 <= c < CHANNEL_COUNT ==> is_channel_entry(
                            #[trigger] final(self).record().channel_infos@[c],
                            c,
                            old(self).record().channel_indexs@[c],
                            sample.list@,
                        )
                },
                CalibrateState::Finish => final(self).record() == old(self).record(),
            },
    {
        match self.state {
            CalibrateState::Idle => {
                self.state = CalibrateState::LowestCheck(0);
            },
            CalibrateState::LowestCheck(x) => {
                let chn: u8 = sample.find_largest_change_channel();
                self.data.channel_indexs.push(chn);
                let next_channel: u8 = x + 1;
                if next_channel as usize == CHANNEL_COUNT {
                    self.state = CalibrateState::MinMaxCheck;
                } else {
                    self.state = CalibrateState::LowestCheck(next_channel);
                }
            },
            CalibrateState::MinMaxCheck => {
                let mut index: usize = 0;
                while index < CHANNEL_COUNT
                    invariant
                        index <= CHANNEL_COUNT,
                        sample.list@.len() > 0,
                        self.state == old(self).state,
                        self.data.channel_indexs == old(self).data.channel_indexs,
                        self.data.channel_indexs@.len() == CHANNEL_COUNT,
                        forall|c: int|
                            0 <= c < CHANNEL_COUNT ==> #[trigger] self.data.channel_indexs@[c]
                                < ADC_SLOTS,
                        self.data.channel_infos@.len() == index,
                        forall|c: int|
                            0 <= c < index ==> is_channel_entry(
                                #[trigger] self.data.channel_infos@[c],
                                c,
                                self.data.channel_indexs@[c],
                                sample.list@,
                            ),
                    decreases CHANNEL_COUNT - index,
                {
                    let channel_index: u8 = self.data.channel_indexs[index];
                    let min: i16 = sample.get_min_of_channel(channel_index);
                    let max: i16 = sample.get_max_of_channel(channel_index);
                    let chn = ChannelInfo {
                        index: channel_index,
                        min,
                        max,
                        rev: false,
                        name: JoystickChannel::STRS[index].to_owned(),
                    };
                    self.data.channel_infos.push(chn);
                    index += 1;
                }
                self.state = CalibrateState::Finish;
            },
            CalibrateState::Finish => {},
        }
    }
}

} // verus!
