//! Instantaneous sensor readings and their field-wise sums.
use vstd::prelude::*;

verus! {

/// One instantaneous reading from the bike's sensors.
///
/// `speed_milli` is the speed in thousandths of a unit; the remaining
/// fields are plain integer readings.
#[derive(Copy, Debug, PartialEq, Eq, Structural)]
pub struct Measurement {
    pub speed_milli: u64,
    pub watts: u32,
    pub rpm: u32,
    pub heartrate: u32,
}

impl Clone for Measurement {
    fn clone(&self) -> (r: Self)
        ensures
            r == *self,
    {
        *self
    }
}

/// Field-wise sum of the speeds of a measurement sequence.
pub open spec fn sum_speed(s: Seq<Measurement>) -> int
    decreases s.len(),
{
    if s.len() == 0 {
        0
    } else {
        sum_speed(s.drop_last()) + s.last().speed_milli
    }
}

/// Field-wise sum of the watt readings of a measurement sequence.
pub open spec fn sum_watts(s: Seq<Measurement>) -> int
    decreases s.len(),
{
    if s.len() == 0 {
        0
    } else {
        sum_watts(s.drop_last()) + s.last().watts
    }
}

/// Field-wise sum of the cadence readings of a measurement sequence.
pub open spec fn sum_rpm(s: Seq<Measurement>) -> int
    decreases s.len(),
{
    if s.len() == 0 {
        0
    } else {
        sum_rpm(s.drop_last()) + s.last().rpm
    }
}

/// Field-wise sum of the heart-rate readings of a measurement sequence.
pub open spec fn sum_heartrate(s: Seq<Measurement>) -> int
    decreases s.len(),
{
    if s.len() == 0 {
        0
    } else {
        sum_heartrate(s.drop_last()) + s.last().heartrate
    }
}

/// Extending a prefix by one measurement adds that measurement's fields
/// to each running total.
pub proof fn lemma_sum_take_step(s: Seq<Measurement>, i: int)
    requires
        0 <= i < s.len(),
    ensures
        sum_speed(s.take(i + 1)) == sum_speed(s.take(i)) + s[i].speed_milli,
        sum_watts(s.take(i + 1)) == sum_watts(s.take(i)) + s[i].watts,
        sum_rpm(s.take(i + 1)) == sum_rpm(s.take(i)) + s[i].rpm,
        sum_heartrate(s.take(i + 1)) == sum_heartrate(s.take(i)) + s[i].heartrate,
{
    assert(s.take(i + 1).drop_last() =~= s.take(i));
    assert(s.take(i + 1).last() == s[i]);
}

/// The speed total of a prefix never exceeds the total of the whole
/// sequence.
pub proof fn lemma_sum_speed_prefix(s: Seq<Measurement>, i: int)
    requires
        0 <= i <= s.len(),
    ensures
        sum_speed(s.take(i)) <= sum_speed(s),
    decreases s.len() - i,
{
    if i == s.len() {
        assert(s.take(i) =~= s);
    } else {
        lemma_sum_take_step(s, i);
        lemma_sum_speed_prefix(s, i + 1);
    }
}

impl Measurement {
    /// Field-wise addition, the associative and commutative "sum" used to
    /// accumulate running totals.
    pub fn add(self, other: Self) -> (r: Self)
        requires
            self.speed_milli + other.speed_milli <= u64::MAX,
            self.watts + other.watts <= u32::MAX,
            self.rpm + other.rpm <= u32::MAX,
            self.heartrate + other.heartrate <= u32::MAX,
        ensures
            r.speed_milli == self.speed_milli + other.speed_milli,
            r.watts == self.watts + other.watts,
            r.rpm == self.rpm + other.rpm,
            r.heartrate == self.heartrate + other.heartrate,
    {
        Self {
            speed_milli: self.speed_milli + other.speed_milli,
            watts: self.watts + other.watts,
            rpm: self.rpm + other.rpm,
            heartrate: self.heartrate + other.heartrate,
        }
    }
}

} // verus!
