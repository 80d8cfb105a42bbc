//! A window of raw scans taken during one calibration step, and what the
//! calibration reads from it.

use vstd::prelude::*;
use crate::adc::{AdcRawMsg, ADC_SLOTS};
use crate::arith::quotient_toward_zero;

verus! {

/// `m` is the least reading of input `slot` among the scans `s`.
pub open spec fn is_min_of_slot(s: Seq<AdcRawMsg>, slot: int, m: int) -> bool {
    &&& exists|i: int| 0 <= i < s.len() && #[trigger] s[i].slot(slot) == m
    &&& forall|i: int| 0 <= i < s.len() ==> m <= #[trigger] s[i].slot(slot)
}

/// `m` is the greatest reading of input `slot` among the scans `s`.
pub open spec fn is_max_of_slot(s: Seq<AdcRawMsg>, slot: int, m: int) -> bool {
    &&& exists|i: int| 0 <= i < s.len() && #[trigger] s[i].slot(slot) == m
    &&& forall|i: int| 0 <= i < s.len() ==> m >= #[trigger] s[i].slot(slot)
}

/// The sum of the readings of input `slot` over the scans `s`.
pub open spec fn slot_sum(s: Seq<AdcRawMsg>, slot: int) -> int
    decreases s.len(),
{
    if s.len() == 0 {
        0
    } else {
        slot_sum(s.drop_last(), slot) + s.last().slot(slot)
    }
}

/// The mean reading of input `slot` over the scans `s`, rounded toward zero.
pub open spec fn slot_mean(s: Seq<AdcRawMsg>, slot: int) -> int {
    quotient_toward_zero(slot_sum(s, slot), s.len() as int)
}

/// `i` is the place of the scan with the greatest total; among several such
/// scans, of the last.
pub open spec fn is_highest_total(s: Seq<AdcRawMsg>, i: int) -> bool {
    &&& 0 <= i < s.len()
    &&& forall|j: int| 0 <= j < s.len() ==> (#[trigger] s[j]).total() <= s[i].total()
    &&& forall|j: int| i < j < s.len() ==> (#[trigger] s[j]).total() < s[i].total()
}

/// `i` is the place of the scan with the least total; among several such
/// scans, of the first.
pub open spec fn is_lowest_total(s: Seq<AdcRawMsg>, i: int) -> bool {
    &&& 0 <= i < s.len()
    &&& forall|j: int| 0 <= j < s.len() ==> s[i].total() <= (#[trigger] s[j]).total()
    &&& forall|j: int| 0 <= j < i ==> s[i].total() < (#[trigger] s[j]).total()
}

/// How far apart the two scans are on input `slot`.
pub open spec fn swing(hi: AdcRawMsg, lo: AdcRawMsg, slot: int) -> int {
    let d = hi.slot(slot) - lo.slot(slot);
    if d < 0 {
        -d
    } else {
        d
    }
}

/// `slot` is the input on which the two scans are farthest apart; among
/// several such inputs, the first.
pub open spec fn is_widest_swing(hi: AdcRawMsg, lo: AdcRawMsg, slot: int) -> bool {
    &&& 0 <= slot < ADC_SLOTS
    &&& forall|k: int| 0 <= k < ADC_SLOTS ==> #[trigger] swing(hi, lo, k) <= swing(hi, lo, slot)
    &&& forall|k: int| 0 <= k < slot ==> #[trigger] swing(hi, lo, k) < swing(hi, lo, slot)
}

/// `slot` is the input that moved most in the window `s`: the one on which
/// the scan with the greatest total and the scan with the least total are
/// farthest apart.
pub open spec fn is_largest_change(s: Seq<AdcRawMsg>, slot: int) -> bool {
    exists|i: int, k: int|
        #![trigger is_highest_total(s, i), is_lowest_total(s, k)]
        is_highest_total(s, i) && is_lowest_total(s, k) && is_widest_swing(s[i], s[k], slot)
}

/// A window has at most one least and one greatest reading on each input.
pub proof fn lemma_extremes_unique(s: Seq<AdcRawMsg>, slot: int, a: int, b: int)
    ensures
        is_min_of_slot(s, slot, a) && is_min_of_slot(s, slot, b) ==> a == b,
        is_max_of_slot(s, slot, a) && is_max_of_slot(s, slot, b) ==> a == b,
{
}

/// A window names at most one input as the one that moved most.
pub proof fn lemma_largest_change_unique(s: Seq<AdcRawMsg>, a: int, b: int)
    requires
        is_largest_change(s, a),
        is_largest_change(s, b),
    ensures
        a == b,
{
    let (i, k) = choose|i: int, k: int|
        #![trigger is_highest_total(s, i), is_lowest_total(s, k)]
        is_highest_total(s, i) && is_lowest_total(s, k) && is_widest_swing(s[i], s[k], a);
    let (j, l) = choose|j: int, l: int|
        #![trigger is_highest_total(s, j), is_lowest_total(s, l)]
        is_highest_total(s, j) && is_lowest_total(s, l) && is_widest_swing(s[j], s[l], b);
}

/// The sum over one more scan is the sum so far plus that scan's reading.
proof fn lemma_slot_sum_step(s: Seq<AdcRawMsg>, n: int, slot: int)
    requires
        0 <= n < s.len(),
    ensures
        slot_sum(s.take(n + 1), slot) == slot_sum(s.take(n), slot) + s[n].slot(slot),
{
    assert(s.take(n + 1).drop_last() =~= s.take(n));
}

/// The sum of `n` readings lies within `n` times the range of one reading.
proof fn lemma_slot_sum_bounds(s: Seq<AdcRawMsg>, slot: int)
    ensures
        -32768 * s.len() <= slot_sum(s, slot) <= 32767 * s.len(),
    decreases s.len(),
{
    if s.len() > 0 {
        lemma_slot_sum_bounds(s.drop_last(), slot);
    }
}

/// The mean of a window that is not empty is itself a possible reading.
pub proof fn lemma_slot_mean_bounds(s: Seq<AdcRawMsg>, slot: int)
    requires
        s.len() > 0,
    ensures
        -32768 <= slot_mean(s, slot) <= 32767,
{
    lemma_slot_sum_bounds(s, slot);
    let t = slot_sum(s, slot);
    let n = s.len() as int;
    if t >= 0 {
        assert(0 <= t / n <= 32767) by (nonlinear_arith)
            requires
                0 <= t <= 32767 * n,
                n > 0,
        ;
    } else {
        assert(0 <= (-t) / n <= 32768) by (nonlinear_arith)
            requires
                0 <= -t <= 32768 * n,
                n > 0,
        ;
    }
}

/// The sum of the readings of an input lies within the number of scans
/// times any bounds that hold of every reading.
proof fn lemma_slot_sum_between(s: Seq<AdcRawMsg>, slot: int, lo: int, hi: int)
    requires
        forall|i: int| 0 <= i < s.len() ==> lo <= #[trigger] s[i].slot(slot) <= hi,
    ensures
        lo * s.len() <= slot_sum(s, slot) <= hi * s.len(),
    decreases s.len(),
{
    if s.len() > 0 {
        let t = s.drop_last();
        assert forall|i: int| 0 <= i < t.len() implies lo <= #[trigger] t[i].slot(slot) <= hi by {
            assert(t[i] == s[i]);
        }
        lemma_slot_sum_between(t, slot, lo, hi);
        assert(lo * s.len() == lo * t.len() + lo) by (nonlinear_arith)
            requires
                s.len() == t.len() + 1,
        ;
        assert(hi * s.len() == hi * t.len() + hi) by (nonlinear_arith)
            requires
                s.len() == t.len() + 1,
        ;
    } else {
        assert(lo * s.len() == 0) by (nonlinear_arith)
            requires
                s.len() == 0,
        ;
        assert(hi * s.len() == 0) by (nonlinear_arith)
            requires
                s.len() == 0,
        ;
    }
}

/// The mean of an input lies between its least and its greatest reading.
pub proof fn lemma_slot_mean_between(s: Seq<AdcRawMsg>, slot: int, lo: int, hi: int)
    requires
        is_min_of_slot(s, slot, lo),
        is_max_of_slot(s, slot, hi),
    ensures
        lo <= slot_mean(s, slot) <= hi,
{
    let n = s.len() as int;
    let t = slot_sum(s, slot);
    lemma_slot_sum_between(s, slot, lo, hi);
    assert(lo <= quotient_toward_zero(t, n) <= hi) by (nonlinear_arith)
        requires
            n > 0,
            lo * n <= t <= hi * n,
            quotient_toward_zero(t, n) == (if t >= 0 {
                t / n
            } else {
                -((-t) / n)
            }),
    ;
}

/// Rounds the quotient of `a` by `b` toward zero.
fn divide_toward_zero(a: i128, b: i128) -> (q: i128)
    requires
        b > 0,
        a > i128::MIN,
    ensures
        q == quotient_toward_zero(a as int, b as int),
{
    if a >= 0 {
        a / b
    } else {
        let m: i128 = -a;
        let q: i128 = m / b;
        -q
    }
}

/// The scans collected during one calibration step, oldest first.
pub struct CalSample {
    pub list: Vec<AdcRawMsg>,
}

impl CalSample {
    /// An empty window.
    pub fn new() -> (r: Self)
        ensures
            r.list@.len() == 0,
    {
        CalSample { list: Vec::new() }
    }

    /// Adds `data` to a window that is to last `seconds`, and tells whether
    /// the window is over: whether `elapsed_seconds`, the time since its
    /// start, has reached `seconds`. A window holds at least one scan.
    pub fn take_timed(
        &mut self,
        data: AdcRawMsg,
        elapsed_seconds: u64,
        seconds: u32,
    ) -> (over: bool)
        ensures
            final(self).list@ == old(self).list@.push(data),
            over == (elapsed_seconds >= seconds),
    {
        self.list.push(data);
        elapsed_seconds >= seconds as u64
    }

    /// Whether a window that is to hold `count` scans still lacks some.
    pub fn needs_more(&self, count: u32) -> (r: bool)
        ensures
            r == (self.list@.len() < count),
    {
        self.list.len() < count as usize
    }

    /// The mean of each input over the window, rounded toward zero.
    pub fn get_average(&self) -> (r: AdcRawMsg)
        requires
            self.list@.len() > 0,
        ensures
            forall|slot: int|
                0 <= slot < ADC_SLOTS ==> #[trigger] r.slot(slot) == slot_mean(self.list@, slot),
    {
        let n: usize = self.list.len();
        let mut t0: i128 = 0;
        let mut t1: i128 = 0;
        let mut t2: i128 = 0;
        let mut t3: i128 = 0;
        let mut i: usize = 0;
        while i < n
            invariant
                n == self.list@.len(),
                i <= n,
                t0 == slot_sum(self.list@.take(i as int), 0),
                t1 == slot_sum(self.list@.take(i as int), 1),
                t2 == slot_sum(self.list@.take(i as int), 2),
                t3 == slot_sum(self.list@.take(i as int), 3),
            decreases n - i,
        {
            proof {
                lemma_slot_sum_step(self.list@, i as int, 0);
                lemma_slot_sum_step(self.list@, i as int, 1);
                lemma_slot_sum_step(self.list@, i as int, 2);
                lemma_slot_sum_step(self.list@, i as int, 3);
                lemma_slot_sum_bounds(self.list@.take(i as int), 0);
                lemma_slot_sum_bounds(self.list@.take(i as int), 1);
                lemma_slot_sum_bounds(self.list@.take(i as int), 2);
                lemma_slot_sum_bounds(self.list@.take(i as int), 3);
            }
            let scan = &self.list[i];
            t0 = t0 + scan.value[0] as i128;
            t1 = t1 + scan.value[1] as i128;
            t2 = t2 + scan.value[2] as i128;
            t3 = t3 + scan.value[3] as i128;
            i += 1;
        }
        proof {
            assert(self.list@.take(n as int) =~= self.list@);
            lemma_slot_sum_bounds(self.list@, 0);
            lemma_slot_sum_bounds(self.list@, 1);
            lemma_slot_sum_bounds(self.list@, 2);
            lemma_slot_sum_bounds(self.list@, 3);
            lemma_slot_mean_bounds(self.list@, 0);
            lemma_slot_mean_bounds(self.list@, 1);
            lemma_slot_mean_bounds(self.list@, 2);
            lemma_slot_mean_bounds(self.list@, 3);
        }
        let count: i128 = n as i128;
        let m0: i128 = divide_toward_zero(t0, count);
        let m1: i128 = divide_toward_zero(t1, count);
        let m2: i128 = divide_toward_zero(t2, count);
        let m3: i128 = divide_toward_zero(t3, count);
        AdcRawMsg { value: [m0 as i16, m1 as i16, m2 as i16, m3 as i16] }
    }

    /// The input that moved most during the window: the one on which the
    /// scan with the greatest total and the scan with the least total are
    /// farthest apart.
    pub fn find_largest_change_channel(&self) -> (r: u8)
        requires
            self.list@.len() > 0,
        ensures
            is_largest_change(self.list@, r as int),
    {
        let n: usize = self.list.len();
        let mut hi: usize = 0;
        let mut lo: usize = 0;
        let mut hi_total: i32 = self.list[0].sum();
        let mut lo_total: i32 = hi_total;
        let mut i: usize = 1;
        while i < n
            invariant
                n == self.list@.len(),
                1 <= i <= n,
                hi < i,
                lo < i,
                hi_total == self.list@[hi as int].total(),
                lo_total == self.list@[lo as int].total(),
                forall|j: int| 0 <= j < i ==> (#[trigger] self.list@[j]).total() <= hi_total,
                forall|j: int| hi < j < i ==> (#[trigger] self.list@[j]).total() < hi_total,
                forall|j: int| 0 <= j < i ==> lo_total <= (#[trigger] self.list@[j]).total(),
                forall|j: int| 0 <= j < lo ==> lo_total < (#[trigger] self.list@[j]).total(),
            decreases n - i,
        {
            let t: i32 = self.list[i].sum();
            if t >= hi_total {
                hi = i;
                hi_total = t;
            }
            if t < lo_total {
                lo = i;
                lo_total = t;
            }
            i += 1;
        }
        assert(is_highest_total(self.list@, hi as int));
        assert(is_lowest_total(self.list@, lo as int));
        let top = &self.list[hi];
        let bottom = &self.list[lo];
        let mut widest: i32 = 0;
        let mut ret: u8 = 0;
        let mut k: usize = 0;
        while k < 4
            invariant
                k <= 4,
                ret < 4,
                k == 0 ==> ret == 0 && widest == 0,
                k > 0 ==> ret < k && widest == swing(*top, *bottom, ret as int),
                forall|j: int| 0 <= j < k ==> #[trigger] swing(*top, *bottom, j) <= widest,
                forall|j: int| 0 <= j < ret ==> #[trigger] swing(*top, *bottom, j) < widest,
            decreases 4 - k,
        {
            let d: i32 = top.value[k] as i32 - bottom.value[k] as i32;
            let apart: i32 = if d < 0 {
                -d
            } else {
                d
            };
            if apart > widest {
                widest = apart;
                ret = k as u8;
            }
            k += 1;
        }
        ret
    }

    /// The least reading of input `channel_index` in the window.
    pub fn get_min_of_channel(&self, channel_index: u8) -> (r: i16)
        requires
            self.list@.len() > 0,
            channel_index < ADC_SLOTS,
        ensures
            is_min_of_slot(self.list@, channel_index as int, r as int),
    {
        let c: usize = channel_index as usize;
        let mut best: i16 = self.list[0].value[c];
        let ghost mut at: int = 0;
        let mut i: usize = 1;
        while i < self.list.len()
            invariant
                1 <= i <= self.list@.len(),
                c == channel_index,
                c < ADC_SLOTS,
                0 <= at < i,
                self.list@[at].slot(c as int) == best,
                forall|j: int| 0 <= j < i ==> best <= #[trigger] self.list@[j].slot(c as int),
            decreases self.list@.len() - i,
        {
            let v: i16 = self.list[i].value[c];
            if v < best {
                best = v;
                proof {
                    at = i as int;
                }
            }
            i += 1;
        }
        best
    }

    /// The greatest reading of input `channel_index` in the window.
    pub fn get_max_of_channel(&self, channel_index: u8) -> (r: i16)
        requires
            self.list@.len() > 0,
            channel_index < ADC_SLOTS,
        ensures
            is_max_of_slot(self.list@, channel_index as int, r as int),
    {
        let c: usize = channel_index as usize;
        let mut best: i16 = self.list[0].value[c];
        let ghost mut at: int = 0;
        let mut i: usize = 1;
        while i < self.list.len()
            invariant
                1 <= i <= self.list@.len(),
                c == channel_index,
                c < ADC_SLOTS,
                0 <= at < i,
                self.list@[at].slot(c as int) == best,
                forall|j: int| 0 <= j < i ==> best >= #[trigger] self.list@[j].slot(c as int),
            decreases self.list@.len() - i,
        {
            let v: i16 = self.list[i].value[c];
            if v > best {
                best = v;
                proof {
                    at = i as int;
                }
            }
            i += 1;
        }
        best
    }
}

} // verus!
