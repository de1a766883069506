//! Training plans and the step cursor: the state machine that walks a
//! plan's step queue, one step per inbound event, and answers one control
//! instruction per event.
use vstd::prelude::*;

use std::collections::VecDeque;

verus! {

/// The tag carried by every protocol message of a guided session.
#[derive(Clone, Copy, Debug, PartialEq, Eq, Structural)]
pub enum StepType {
    Starting,
    InProgress,
    Ending,
}

/// One step of a training plan: a power target held for a duration.
#[derive(Clone, Copy, Debug, PartialEq, Eq, Structural)]
pub struct Step {
    pub watts: u32,
    pub duration: u32,
}

/// An ordered sequence of training steps.
#[derive(Debug, PartialEq)]
pub struct WorkoutPlan {
    pub steps: Vec<Step>,
}

/// The token under which a saved plan can be recalled.
#[derive(Clone, Copy, Debug, PartialEq, Eq, Structural)]
pub struct WorkoutPlanToken {
    pub workout_token: i32,
}

/// One inbound message of a guided session: a raw step-type code.
#[derive(Clone, Copy, Debug, PartialEq, Eq, Structural)]
pub struct WorkoutStep {
    pub stype: i32,
}

/// One outbound instruction: the tag answered, a resistance target while
/// the session runs, and the summary identifier once it ends — exactly
/// one of the two optional fields is populated, decided by the tag.
#[derive(Clone, Copy, Debug, PartialEq, Eq, Structural)]
pub struct ControlStep {
    pub stype: StepType,
    pub resistance: Option<u32>,
    pub workout_summary_id: Option<i32>,
}

impl StepType {
    /// The step type a raw wire code denotes, if any.
    pub open spec fn spec_from_code(code: i32) -> Option<StepType> {
        if code == 0 {
            Some(StepType::Starting)
        } else if code == 1 {
            Some(StepType::InProgress)
        } else if code == 2 {
            Some(StepType::Ending)
        } else {
            None
        }
    }

    /// Decodes a raw wire code; a code outside the three known ones is
    /// malformed and yields nothing.
    pub fn from_code(code: i32) -> (r: Option<StepType>)
        ensures
            r == StepType::spec_from_code(code),
    {
        match code {
            0 => Some(StepType::Starting),
            1 => Some(StepType::InProgress),
            2 => Some(StepType::Ending),
            _ => None,
        }
    }
}

/// The fixed plan a guided session loads when it starts.
pub open spec fn default_plan() -> Seq<Step> {
    seq![Step { watts: 150, duration: 2 }, Step { watts: 200, duration: 2 }]
}

/// Exec counterpart of [`default_plan`], as the cursor's queue.
pub fn default_plan_queue() -> (q: VecDeque<Step>)
    ensures
        q@ == default_plan(),
{
    let mut q: VecDeque<Step> = VecDeque::new();
    q.push_back(Step { watts: 150, duration: 2 });
    q.push_back(Step { watts: 200, duration: 2 });
    proof {
        assert(q@ =~= default_plan());
    }
    q
}

/// The resistance served from the front of queue `q`: the first step's
/// watts, or the default zero once the plan is exhausted — exhaustion is
/// never an error.
pub open spec fn front_watts(q: Seq<Step>) -> u32 {
    if q.len() == 0 {
        0
    } else {
        q[0].watts
    }
}

/// `q` without its front step; exhausted stays exhausted.
pub open spec fn rest(q: Seq<Step>) -> Seq<Step> {
    if q.len() == 0 {
        q
    } else {
        q.drop_first()
    }
}

/// The instruction answered to one event when the remaining queue is `q`:
/// `Starting` reloads the fixed plan and serves its first step,
/// `InProgress` serves the next queued step, and `Ending` carries the
/// finished session's summary identifier instead of a resistance.
pub open spec fn step_output(q: Seq<Step>, ev: StepType) -> ControlStep {
    match ev {
        StepType::Starting => ControlStep {
            stype: StepType::Starting,
            resistance: Some(front_watts(default_plan())),
            workout_summary_id: None,
        },
        StepType::InProgress => ControlStep {
            stype: StepType::InProgress,
            resistance: Some(front_watts(q)),
            workout_summary_id: None,
        },
        StepType::Ending => ControlStep {
            stype: StepType::Ending,
            resistance: None,
            workout_summary_id: Some(1),
        },
    }
}

/// The remaining queue after answering one event.
pub open spec fn queue_after(q: Seq<Step>, ev: StepType) -> Seq<Step> {
    match ev {
        StepType::Starting => rest(default_plan()),
        StepType::InProgress => rest(q),
        StepType::Ending => q,
    }
}

/// The remaining queue after answering every event of `evs` in order,
/// starting from `q0`.
pub open spec fn queue_after_events(q0: Seq<Step>, evs: Seq<StepType>) -> Seq<Step>
    decreases evs.len(),
{
    if evs.len() == 0 {
        q0
    } else {
        queue_after(queue_after_events(q0, evs.drop_last()), evs.last())
    }
}

/// The instructions answered to `evs`, in order, starting from queue `q0`.
pub open spec fn run_outputs(q0: Seq<Step>, evs: Seq<StepType>) -> Seq<ControlStep>
    decreases evs.len(),
{
    if evs.len() == 0 {
        Seq::empty()
    } else {
        run_outputs(q0, evs.drop_last()).push(
            step_output(queue_after_events(q0, evs.drop_last()), evs.last()),
        )
    }
}

/// Whether every raw code in `steps` denotes a step type.
pub open spec fn valid_codes(steps: Seq<WorkoutStep>) -> bool {
    forall|i: int| 0 <= i < steps.len() ==> StepType::spec_from_code(#[trigger] steps[i].stype) is Some
}

/// The step types a sequence of well-formed raw messages denotes.
pub open spec fn events_of(steps: Seq<WorkoutStep>) -> Seq<StepType> {
    Seq::new(steps.len(), |i: int| StepType::spec_from_code(steps[i].stype).unwrap())
}

/// Law: the outbound stream of a guided session holds exactly one
/// instruction per inbound event.
pub proof fn lemma_run_outputs_len(q0: Seq<Step>, evs: Seq<StepType>)
    ensures
        run_outputs(q0, evs).len() == evs.len(),
    decreases evs.len(),
{
    if evs.len() > 0 {
        lemma_run_outputs_len(q0, evs.drop_last());
    }
}

/// Law: instructions correspond to events positionally — the instruction
/// at position `i` answers the event at position `i`, from the queue
/// state that the first `i` events produced, and echoes that event's tag.
pub proof fn lemma_run_outputs_index(q0: Seq<Step>, evs: Seq<StepType>, i: int)
    requires
        0 <= i < evs.len(),
    ensures
        run_outputs(q0, evs).len() == evs.len(),
        run_outputs(q0, evs)[i] == step_output(queue_after_events(q0, evs.take(i)), evs[i]),
        run_outputs(q0, evs)[i].stype == evs[i],
    decreases evs.len(),
{
    lemma_run_outputs_len(q0, evs);
    if i == evs.len() - 1 {
        assert(evs.take(i) =~= evs.drop_last());
    } else {
        lemma_run_outputs_index(q0, evs.drop_last(), i);
        assert(evs.drop_last().take(i) =~= evs.take(i));
        lemma_run_outputs_len(q0, evs.drop_last());
    }
}

/// Serves the next queued step: pops the front of the queue and answers
/// its watts as the resistance target, or the default zero when the queue
/// is exhausted.
pub fn next_control_step(stype: StepType, training_steps: &mut VecDeque<Step>) -> (r: ControlStep)
    ensures
        r.stype == stype,
        r.resistance == Some(front_watts(old(training_steps)@)),
        r.workout_summary_id is None,
        final(training_steps)@ == rest(old(training_steps)@),
{
    let step = training_steps.pop_front();
    let resistance = Some(
        match step {
            Some(s) => s.watts,
            None => 0,
        },
    );
    proof {
        if old(training_steps)@.len() > 0 {
            assert(training_steps@ =~= rest(old(training_steps)@));
        }
    }
    ControlStep { stype, resistance, workout_summary_id: None }
}

/// The closing instruction of a session: no resistance target, the
/// finished session's summary identifier instead.
pub fn end_workout() -> (r: ControlStep)
    ensures
        r.stype == StepType::Ending,
        r.resistance is None,
        r.workout_summary_id == Some(1i32),
{
    ControlStep { stype: StepType::Ending, resistance: None, workout_summary_id: Some(1) }
}

} // verus!
