//! The cycling-tracker service: saving and recording workouts, reading
//! measurements back, and the two streaming protocols — the guided
//! session and the live running averages. Every call authenticates once,
//! at its start, through the session handler.
use vstd::prelude::*;

use std::collections::VecDeque;

use crate::handler::session::{unauthenticated_reason, SessionHandler};
use crate::handler::workout::WorkoutHandler;
use crate::measurement::{lemma_sum_speed_prefix, lemma_sum_take_step, sum_speed, Measurement};
use crate::plan::{
    default_plan_queue, end_workout, events_of, next_control_step, queue_after_events,
    run_outputs, step_output, valid_codes, ControlStep, Step, StepType, WorkoutPlan,
    WorkoutPlanToken, WorkoutStep,
};
use crate::status::{Code, Status};
use crate::workout::{averages_match, SummaryView, Workout, WorkoutRequest, WorkoutSummary};

verus! {

/// The tracker service, bound to its workout store and session handler.
pub struct CyclingTrackerService {
    pub workout_handler: WorkoutHandler,
    pub session_handler: SessionHandler,
}

impl CyclingTrackerService {
    pub fn new(workout_handler: WorkoutHandler, session_handler: SessionHandler) -> (r: Self)
        ensures
            r.workout_handler == workout_handler,
            r.session_handler == session_handler,
    {
        CyclingTrackerService { workout_handler, session_handler }
    }

    /// Whether the call's `Authorization` metadata proves some user.
    pub open spec fn authorized(&self, auth: Option<&String>) -> bool {
        self.session_handler.auth_user(auth) is Some
    }

    /// The workout store, in insertion order.
    pub open spec fn store(&self) -> Seq<SummaryView> {
        self.workout_handler.sqlite_handler.summaries()
    }

    /// Summarizes an uploaded workout and persists the summary, which
    /// comes back carrying the identifier the store assigned.
    pub fn save_workout(&mut self, auth: Option<&String>, workout: &Workout) -> (r: Result<
        WorkoutSummary,
        Status,
    >)
        requires
            old(self).store().len() < i32::MAX,
        ensures
            final(self).session_handler == old(self).session_handler,
            final(self).workout_handler.sqlite_handler.user_view() == old(
                self,
            ).workout_handler.sqlite_handler.user_view(),
            r is Ok <==> old(self).authorized(auth),
            match r {
                Ok(s) => {
                    &&& averages_match(s@, workout.measurements@)
                    &&& s.km_ridden_milli == workout.km_ridden_milli
                    &&& s.id == Some((old(self).store().len() + 1) as i32)
                    &&& final(self).store() == old(self).store().push(s@)
                },
                Err(e) => {
                    &&& unauthenticated_reason(auth, e)
                    &&& *final(self) == *old(self)
                },
            },
    {
        match self.session_handler.verify_session_token(auth) {
            Err(e) => Err(e),
            Ok(_) => {
                let summary = self.workout_handler.save_workout(workout);
                Ok(summary)
            },
        }
    }

    /// The measurements stored for the requested workout; an unknown
    /// identifier yields an empty list.
    pub fn get_measurements(&self, auth: Option<&String>, request: WorkoutRequest) -> (r: Result<
        Vec<Measurement>,
        Status,
    >)
        ensures
            r is Ok <==> self.authorized(auth),
            match r {
                Ok(ms) => {
                    &&& 1 <= request.id <= self.store().len() ==> ms@ == self.store().index(
                        request.id - 1,
                    ).measurements
                    &&& !(1 <= request.id <= self.store().len()) ==> ms@ == Seq::<
                        Measurement,
                    >::empty()
                },
                Err(e) => unauthenticated_reason(auth, e),
            },
    {
        match self.session_handler.verify_session_token(auth) {
            Err(e) => Err(e),
            Ok(_) => match self.workout_handler.get_measurements(request.id) {
                Some(ms) => Ok(ms),
                None => Ok(Vec::new()),
            },
        }
    }

    /// Collects a streamed ride into a workout over the service's fixed
    /// course distance, then summarizes and persists it like an uploaded
    /// one.
    pub fn record_workout(&mut self, auth: Option<&String>, measurements: Vec<Measurement>) -> (r:
        Result<WorkoutSummary, Status>)
        requires
            old(self).store().len() < i32::MAX,
        ensures
            final(self).session_handler == old(self).session_handler,
            final(self).workout_handler.sqlite_handler.user_view() == old(
                self,
            ).workout_handler.sqlite_handler.user_view(),
            r is Ok <==> old(self).authorized(auth),
            match r {
                Ok(s) => {
                    &&& averages_match(s@, measurements@)
                    &&& s.km_ridden_milli == 53_500
                    &&& s.id == Some((old(self).store().len() + 1) as i32)
                    &&& final(self).store() == old(self).store().push(s@)
                },
                Err(e) => {
                    &&& unauthenticated_reason(auth, e)
                    &&& *final(self) == *old(self)
                },
            },
    {
        match self.session_handler.verify_session_token(auth) {
            Err(e) => Err(e),
            Ok(_) => {
                let workout = Workout { km_ridden_milli: 53_500, measurements };
                let summary = self.workout_handler.save_workout(&workout);
                Ok(summary)
            },
        }
    }

    /// Stores nothing yet: plans are served from the fixed default, so
    /// the answered token is the placeholder zero.
    pub fn create_workout_plan(&self, _plan: &WorkoutPlan) -> (r: WorkoutPlanToken)
        ensures
            r.workout_token == 0,
    {
        WorkoutPlanToken { workout_token: 0 }
    }

    /// The guided-session protocol: walks the step cursor over the inbound
    /// events and answers exactly one instruction per event, in order. A
    /// malformed step-type code fails the call with `InvalidArgument`;
    /// output already produced is discarded, as a failed stream is. An
    /// `Ending` event does not close the stream: events that follow it are
    /// served the same way, against the queue the session left behind.
    pub fn run_workout(&self, auth: Option<&String>, workout_steps: &Vec<WorkoutStep>) -> (r:
        Result<Vec<ControlStep>, Status>)
        ensures
            r is Ok <==> self.authorized(auth) && valid_codes(workout_steps@),
            match r {
                Ok(out) => out@ == run_outputs(Seq::<Step>::empty(), events_of(workout_steps@)),
                Err(e) => if !self.authorized(auth) {
                    unauthenticated_reason(auth, e)
                } else {
                    e.code == Code::InvalidArgument && e.message@ == "Malformed step type"@
                },
            },
    {
        if let Err(e) = self.session_handler.verify_session_token(auth) {
            return Err(e);
        }
        let ghost q0 = Seq::<Step>::empty();
        let mut training_steps: VecDeque<Step> = VecDeque::new();
        let mut out: Vec<ControlStep> = Vec::new();
        let n = workout_steps.len();
        let mut i: usize = 0;
        proof {
            assert(workout_steps@.take(0) =~= Seq::<WorkoutStep>::empty());
            assert(events_of(workout_steps@.take(0)) =~= Seq::<StepType>::empty());
        }
        while i < n
            invariant
                self.authorized(auth),
                i <= n == workout_steps@.len(),
                valid_codes(workout_steps@.take(i as int)),
                training_steps@ == queue_after_events(
                    q0,
                    events_of(workout_steps@.take(i as int)),
                ),
                out@ == run_outputs(q0, events_of(workout_steps@.take(i as int))),
            decreases n - i,
        {
            let ghost evs = events_of(workout_steps@.take(i as int));
            let code = workout_steps[i].stype;
            let control = match StepType::from_code(code) {
                None => {
                    proof {
                        assert(StepType::spec_from_code(workout_steps@[i as int].stype) is None);
                        assert(!valid_codes(workout_steps@));
                    }
                    return Err(Status::invalid_argument("Malformed step type"));
                },
                Some(StepType::Starting) => {
                    training_steps = default_plan_queue();
                    next_control_step(StepType::Starting, &mut training_steps)
                },
                Some(StepType::InProgress) => next_control_step(
                    StepType::InProgress,
                    &mut training_steps,
                ),
                Some(StepType::Ending) => end_workout(),
            };
            proof {
                let ev = StepType::spec_from_code(workout_steps@[i as int].stype).unwrap();
                let evs1 = events_of(workout_steps@.take(i + 1));
                assert(evs1 =~= evs.push(ev));
                assert(evs1.drop_last() =~= evs);
                assert(control == step_output(queue_after_events(q0, evs), ev));
                assert(training_steps@ == queue_after_events(q0, evs1));
            }
            out.push(control);
            i += 1;
        }
        proof {
            assert(workout_steps@.take(n as int) =~= workout_steps@);
        }
        Ok(out)
    }

    /// The live-averages protocol: folds each inbound measurement into the
    /// running workout — its speed also counts as that sample's distance
    /// contribution — and answers one summary per measurement, each
    /// computed over exactly the measurements seen so far.
    pub fn get_current_averages(&self, auth: Option<&String>, measurements: &Vec<
        Measurement,
    >) -> (r: Result<Vec<WorkoutSummary>, Status>)
        requires
            sum_speed(measurements@) <= u64::MAX,
        ensures
            r is Ok <==> self.authorized(auth),
            match r {
                Ok(out) => {
                    &&& out@.len() == measurements@.len()
                    &&& forall|i: int|
                        0 <= i < out@.len() ==> {
                            &&& averages_match((#[trigger] out@[i])@, measurements@.take(i + 1))
                            &&& out@[i].km_ridden_milli == sum_speed(measurements@.take(i + 1))
                            &&& out@[i].id is None
                        }
                },
                Err(e) => unauthenticated_reason(auth, e),
            },
    {
        if let Err(e) = self.session_handler.verify_session_token(auth) {
            return Err(e);
        }
        let mut workout = Workout { km_ridden_milli: 0, measurements: Vec::new() };
        let mut out: Vec<WorkoutSummary> = Vec::new();
        let n = measurements.len();
        let mut i: usize = 0;
        proof {
            assert(measurements@.take(0) =~= Seq::<Measurement>::empty());
        }
        while i < n
            invariant
                i <= n == measurements@.len(),
                sum_speed(measurements@) <= u64::MAX,
                workout.measurements@ == measurements@.take(i as int),
                workout.km_ridden_milli == sum_speed(measurements@.take(i as int)),
                out@.len() == i,
                forall|j: int|
                    0 <= j < i ==> {
                        &&& averages_match((#[trigger] out@[j])@, measurements@.take(j + 1))
                        &&& out@[j].km_ridden_milli == sum_speed(measurements@.take(j + 1))
                        &&& out@[j].id is None
                    },
            decreases n - i,
        {
            let m = measurements[i];
            proof {
                lemma_sum_take_step(measurements@, i as int);
                lemma_sum_speed_prefix(measurements@, i + 1);
                assert(measurements@.take(i + 1).drop_last() =~= measurements@.take(i as int));
            }
            workout.measurements.push(m);
            proof {
                assert(workout.measurements@ =~= measurements@.take(i + 1));
            }
            workout.km_ridden_milli = workout.km_ridden_milli + m.speed_milli;
            let summary = self.workout_handler.create_summary(&workout);
            out.push(summary);
            i += 1;
        }
        proof {
            assert(measurements@.take(n as int) =~= measurements@);
        }
        Ok(out)
    }
}

} // verus!
