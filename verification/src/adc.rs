//! Raw readings of the four analog inputs.

use vstd::prelude::*;

verus! {

/// Number of analog inputs that one scan delivers.
pub const ADC_SLOTS: usize = 4;

/// One scan of the analog inputs: a signed count for each input.
#[derive(Debug, Clone, Copy)]
pub struct AdcRawMsg {
    pub value: [i16; 4],
}

impl Default for AdcRawMsg {
    fn default() -> (r: Self)
        ensures
            r.value@ == seq![0i16, 0i16, 0i16, 0i16],
    {
        AdcRawMsg { value: [0; 4] }
    }
}

impl AdcRawMsg {
    /// The reading of input `slot`.
    pub open spec fn slot(self, slot: int) -> int {
        self.value@[slot] as int
    }

    /// The sum of the four readings.
    pub open spec fn total(self) -> int {
        self.slot(0) + self.slot(1) + self.slot(2) + self.slot(3)
    }

    /// Computes the sum of the four readings.
    pub fn sum(&self) -> (r: i32)
        ensures
            r == self.total(),
    {
        let a: i32 = self.value[0] as i32;
        let b: i32 = self.value[1] as i32;
        let c: i32 = self.value[2] as i32;
        let d: i32 = self.value[3] as i32;
        a + b + c + d
    }
}

} // verus!
