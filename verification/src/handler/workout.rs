//! Folding measurement sequences into workout summaries and persisting
//! them.
use vstd::prelude::*;

use vstd::arithmetic::div_mod::{lemma_div_is_ordered, lemma_div_multiples_vanish};
use vstd::arithmetic::mul::lemma_mul_inequality;

use crate::handler::sqlite::{with_id, SQLiteHandler};
use crate::measurement::{
    lemma_sum_take_step, sum_heartrate, sum_rpm, sum_speed, sum_watts, Measurement,
};
use crate::workout::{averages_match, Workout, WorkoutSummary};

verus! {

/// Computes summaries and stores them.
pub struct WorkoutHandler {
    pub sqlite_handler: SQLiteHandler,
}

impl WorkoutHandler {
    /// Folds the workout's measurements, in input order, into field-wise
    /// totals and divides each total by the count, truncating. An empty
    /// measurement list yields zeroed averages — no division takes place —
    /// and the given distance is carried over either way. Pure: no state
    /// is touched and no identifier is assigned.
    pub fn create_summary(&self, workout: &Workout) -> (r: WorkoutSummary)
        ensures
            averages_match(r@, workout.measurements@),
            r.km_ridden_milli == workout.km_ridden_milli,
            r.id is None,
    {
        let ms = &workout.measurements;
        let n = ms.len();
        let mut sum_sp: u128 = 0;
        let mut sum_w: u128 = 0;
        let mut sum_r: u128 = 0;
        let mut sum_h: u128 = 0;
        let mut i: usize = 0;
        proof {
            assert(ms@.take(0) =~= Seq::<Measurement>::empty());
            assert((u64::MAX as int) * (u64::MAX as int) < u128::MAX as int);
        }
        while i < n
            invariant
                i <= n == ms@.len(),
                sum_sp == sum_speed(ms@.take(i as int)),
                sum_w == sum_watts(ms@.take(i as int)),
                sum_r == sum_rpm(ms@.take(i as int)),
                sum_h == sum_heartrate(ms@.take(i as int)),
                sum_sp <= (i as int) * (u64::MAX as int),
                sum_w <= (i as int) * (u32::MAX as int),
                sum_r <= (i as int) * (u32::MAX as int),
                sum_h <= (i as int) * (u32::MAX as int),
            decreases n - i,
        {
            let m = ms[i];
            proof {
                lemma_sum_take_step(ms@, i as int);
                assert(i + 1 <= usize::MAX);
                lemma_mul_inequality(i as int + 1, u64::MAX as int, u64::MAX as int);
                lemma_mul_inequality(i as int + 1, u64::MAX as int, u32::MAX as int);
                assert((u64::MAX as int) * (u32::MAX as int) <= (u64::MAX as int) * (
                u64::MAX as int)) by (nonlinear_arith);
            }
            sum_sp = sum_sp + (m.speed_milli as u128);
            sum_w = sum_w + (m.watts as u128);
            sum_r = sum_r + (m.rpm as u128);
            sum_h = sum_h + (m.heartrate as u128);
            i += 1;
        }
        proof {
            assert(ms@.take(n as int) =~= ms@);
        }
        let measurements = ms.clone();
        proof {
            assert(measurements@ =~= ms@);
        }
        if n == 0 {
            WorkoutSummary {
                id: None,
                km_ridden_milli: workout.km_ridden_milli,
                avg_speed_milli: 0,
                avg_watts: 0,
                avg_rpm: 0,
                avg_heartrate: 0,
                measurements,
            }
        } else {
            let count = n as u128;
            proof {
                lemma_div_is_ordered(sum_sp as int, (n as int) * (u64::MAX as int), n as int);
                lemma_div_multiples_vanish(u64::MAX as int, n as int);
                lemma_div_is_ordered(sum_w as int, (n as int) * (u32::MAX as int), n as int);
                lemma_div_is_ordered(sum_r as int, (n as int) * (u32::MAX as int), n as int);
                lemma_div_is_ordered(sum_h as int, (n as int) * (u32::MAX as int), n as int);
                lemma_div_multiples_vanish(u32::MAX as int, n as int);
            }
            WorkoutSummary {
                id: None,
                km_ridden_milli: workout.km_ridden_milli,
                avg_speed_milli: (sum_sp / count) as u64,
                avg_watts: (sum_w / count) as u32,
                avg_rpm: (sum_r / count) as u32,
                avg_heartrate: (sum_h / count) as u32,
                measurements,
            }
        }
    }

    /// Summarizes the workout, appends the summary to the store, and hands
    /// the summary back with the identifier the store assigned.
    pub fn save_workout(&mut self, workout: &Workout) -> (r: WorkoutSummary)
        requires
            old(self).sqlite_handler.summaries().len() < i32::MAX,
        ensures
            averages_match(r@, workout.measurements@),
            r.km_ridden_milli == workout.km_ridden_milli,
            r.id == Some((old(self).sqlite_handler.summaries().len() + 1) as i32),
            final(self).sqlite_handler.summaries() == old(self).sqlite_handler.summaries().push(
                r@,
            ),
            final(self).sqlite_handler.user_view() == old(self).sqlite_handler.user_view(),
    {
        let mut summary = self.create_summary(workout);
        let ghost pre = summary@;
        let summary_id = self.sqlite_handler.save_workout(&summary);
        summary.id = Some(summary_id);
        proof {
            assert(summary@ == with_id(pre, summary_id));
        }
        summary
    }

    /// The measurements stored for a workout identifier; an unknown
    /// identifier yields an empty list.
    pub fn get_measurements(&self, workout_id: i32) -> (r: Option<Vec<Measurement>>)
        ensures
            r is Some,
            1 <= workout_id <= self.sqlite_handler.summaries().len() ==> r.unwrap()@
                == self.sqlite_handler.summaries().index(workout_id - 1).measurements,
            !(1 <= workout_id <= self.sqlite_handler.summaries().len()) ==> r.unwrap()@ == Seq::<
                Measurement,
            >::empty(),
    {
        self.sqlite_handler.get_measurements(workout_id)
    }
}

} // verus!
