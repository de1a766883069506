//! Workouts and their computed summaries.
use vstd::prelude::*;

use crate::measurement::{sum_heartrate, sum_rpm, sum_speed, sum_watts, Measurement};

verus! {

/// A workout as uploaded by a client: a distance (in thousandths of a
/// unit) and the measurements recorded along the way.
#[derive(Debug, PartialEq)]
pub struct Workout {
    pub km_ridden_milli: u64,
    pub measurements: Vec<Measurement>,
}

/// Summary statistics over a workout's measurements.
///
/// The identifier is assigned only when the summary is persisted; before
/// that it is `None`. The averages over an empty measurement list are all
/// zero (no division takes place), and the distance is carried over from
/// the input either way.
#[derive(Debug, PartialEq)]
pub struct WorkoutSummary {
    pub id: Option<i32>,
    pub km_ridden_milli: u64,
    pub avg_speed_milli: u64,
    pub avg_watts: u32,
    pub avg_rpm: u32,
    pub avg_heartrate: u32,
    pub measurements: Vec<Measurement>,
}

/// A request for the measurements of one stored workout.
#[derive(Clone, Copy, Debug, PartialEq, Eq, Structural)]
pub struct WorkoutRequest {
    pub id: i32,
}

/// The mathematical content of a summary.
pub ghost struct SummaryView {
    pub id: Option<i32>,
    pub km_ridden_milli: u64,
    pub avg_speed_milli: u64,
    pub avg_watts: u32,
    pub avg_rpm: u32,
    pub avg_heartrate: u32,
    pub measurements: Seq<Measurement>,
}

impl View for WorkoutSummary {
    type V = SummaryView;

    open spec fn view(&self) -> SummaryView {
        SummaryView {
            id: self.id,
            km_ridden_milli: self.km_ridden_milli,
            avg_speed_milli: self.avg_speed_milli,
            avg_watts: self.avg_watts,
            avg_rpm: self.avg_rpm,
            avg_heartrate: self.avg_heartrate,
            measurements: self.measurements@,
        }
    }
}

impl Clone for WorkoutSummary {
    fn clone(&self) -> (r: Self)
        ensures
            r@ == self@,
    {
        let measurements = self.measurements.clone();
        proof {
            assert(measurements@ =~= self.measurements@);
        }
        WorkoutSummary {
            id: self.id,
            km_ridden_milli: self.km_ridden_milli,
            avg_speed_milli: self.avg_speed_milli,
            avg_watts: self.avg_watts,
            avg_rpm: self.avg_rpm,
            avg_heartrate: self.avg_heartrate,
            measurements,
        }
    }
}

impl Clone for Workout {
    fn clone(&self) -> (r: Self)
        ensures
            r.km_ridden_milli == self.km_ridden_milli,
            r.measurements@ == self.measurements@,
    {
        let measurements = self.measurements.clone();
        proof {
            assert(measurements@ =~= self.measurements@);
        }
        Workout { km_ridden_milli: self.km_ridden_milli, measurements }
    }
}

/// Truncated mean of the speeds, zero for an empty sequence.
pub open spec fn avg_speed_milli_of(s: Seq<Measurement>) -> int {
    if s.len() == 0 {
        0
    } else {
        sum_speed(s) / s.len() as int
    }
}

/// Truncated mean of the watt readings, zero for an empty sequence.
pub open spec fn avg_watts_of(s: Seq<Measurement>) -> int {
    if s.len() == 0 {
        0
    } else {
        sum_watts(s) / s.len() as int
    }
}

/// Truncated mean of the cadence readings, zero for an empty sequence.
pub open spec fn avg_rpm_of(s: Seq<Measurement>) -> int {
    if s.len() == 0 {
        0
    } else {
        sum_rpm(s) / s.len() as int
    }
}

/// Truncated mean of the heart-rate readings, zero for an empty sequence.
pub open spec fn avg_heartrate_of(s: Seq<Measurement>) -> int {
    if s.len() == 0 {
        0
    } else {
        sum_heartrate(s) / s.len() as int
    }
}

/// The summary's averaged fields are exactly the means over `s`, and the
/// summary carries `s` itself, unchanged.
pub open spec fn averages_match(summary: SummaryView, s: Seq<Measurement>) -> bool {
    &&& summary.avg_speed_milli == avg_speed_milli_of(s)
    &&& summary.avg_watts == avg_watts_of(s)
    &&& summary.avg_rpm == avg_rpm_of(s)
    &&& summary.avg_heartrate == avg_heartrate_of(s)
    &&& summary.measurements == s
}

/// Law: incremental summarization agrees with batch summarization.
/// Absorbing measurement `n` into the running totals of the first `n - 1`
/// measurements yields exactly the totals of the first `n`, and the
/// averages after `n` measurements are the batch averages of that prefix —
/// for every `n`.
pub proof fn lemma_incremental_summarize(s: Seq<Measurement>, n: int)
    requires
        1 <= n <= s.len(),
    ensures
        sum_speed(s.take(n)) == sum_speed(s.take(n - 1)) + s[n - 1].speed_milli,
        sum_watts(s.take(n)) == sum_watts(s.take(n - 1)) + s[n - 1].watts,
        sum_rpm(s.take(n)) == sum_rpm(s.take(n - 1)) + s[n - 1].rpm,
        sum_heartrate(s.take(n)) == sum_heartrate(s.take(n - 1)) + s[n - 1].heartrate,
        avg_speed_milli_of(s.take(n)) == sum_speed(s.take(n)) / n,
        avg_watts_of(s.take(n)) == sum_watts(s.take(n)) / n,
        avg_rpm_of(s.take(n)) == sum_rpm(s.take(n)) / n,
        avg_heartrate_of(s.take(n)) == sum_heartrate(s.take(n)) / n,
{
    crate::measurement::lemma_sum_take_step(s, n - 1);
    assert(s.take(n).len() == n);
}

} // verus!
