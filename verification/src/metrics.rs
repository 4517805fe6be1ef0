//! Point-in-time metric samples and the exact arithmetic behind them.
//!
//! Percentages are carried in hundredths of a percent (`5000` is 50.00%),
//! temperatures in hundredths of a degree Celsius.

use vstd::prelude::*;
use vstd::arithmetic::div_mod::{lemma_div_is_ordered, lemma_div_multiples_vanish};

verus! {

/// One point-in-time reading of the monitored host.
pub struct Sample {
    /// Aggregate CPU utilization, in hundredths of a percent, at most `10000`.
    pub cpu_percent: u64,
    /// Memory utilization, in hundredths of a percent, at most `10000`.
    pub memory_percent: u64,
    /// Mean sensor temperature in centidegrees Celsius; `None` when the
    /// host reports no temperature sensors.
    pub avg_temperature: Option<u64>,
    /// The moment the sample was taken, already rendered for display.
    pub timestamp: String,
}

impl Sample {
    /// Both percentages lie on the 0–100% scale.
    pub open spec fn well_formed(&self) -> bool {
        self.cpu_percent <= 10000 && self.memory_percent <= 10000
    }
}

/// The sum of a sequence of readings.
pub open spec fn sum_centi(s: Seq<u64>) -> int
    decreases s.len(),
{
    if s.len() == 0 {
        0
    } else {
        sum_centi(s.drop_last()) + s.last()
    }
}

/// Caps a percentage reading at 100.00%.
pub fn clamp_percent(p: u64) -> (r: u64)
    ensures
        r == if p > 10000 { 10000u64 } else { p },
        r <= 10000,
{
    if p > 10000 {
        10000
    } else {
        p
    }
}

/// Memory utilization as `used / total * 100`, in hundredths of a percent,
/// capped at 100.00% when more than the total is reported as used.
pub fn memory_percent_hundredths(used: u64, total: u64) -> (r: u64)
    requires
        total > 0,
    ensures
        used <= total ==> r == used as int * 10000 / (total as int),
        used > total ==> r == 10000,
        r <= 10000,
{
    if used > total {
        10000
    } else {
        let q: u128 = (used as u128) * 10000 / (total as u128);
        proof {
            lemma_div_is_ordered(used as int * 10000, total as int * 10000, total as int);
            lemma_div_multiples_vanish(10000, total as int);
            assert(q <= 10000);
        }
        q as u64
    }
}

/// The arithmetic mean of the readings, rounded toward zero; `None` for an
/// empty set of readings.
pub fn average_centi(readings: &Vec<u64>) -> (r: Option<u64>)
    ensures
        readings@.len() == 0 ==> r is None,
        readings@.len() > 0 ==> (r matches Some(a) && a == sum_centi(readings@) / (readings@.len() as int)),
{
    let n = readings.len();
    if n == 0 {
        return None;
    }
    let mut sum: u128 = 0;
    let mut i: usize = 0;
    while i < n
        invariant
            n == readings@.len(),
            i <= n,
            sum as int == sum_centi(readings@.take(i as int)),
            sum as int <= i as int * 0xffff_ffff_ffff_ffff,
        decreases n - i,
    {
        let x = readings[i];
        proof {
            assert(readings@.take(i as int + 1).drop_last() =~= readings@.take(i as int));
            assert(readings@.take(i as int + 1).last() == readings@[i as int]);
        }
        sum = sum + (x as u128);
        i = i + 1;
    }
    proof {
        assert(readings@.take(n as int) =~= readings@);
        lemma_div_is_ordered(sum as int, n as int * 0xffff_ffff_ffff_ffff, n as int);
        lemma_div_multiples_vanish(0xffff_ffff_ffff_ffff, n as int);
    }
    let avg: u128 = sum / (n as u128);
    Some(avg as u64)
}

} // verus!
