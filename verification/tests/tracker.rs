use std::collections::VecDeque;

use cycling_tracker::grpc::cycling_tracker::CyclingTrackerService;
use cycling_tracker::handler::redis::RedisHandler;
use cycling_tracker::handler::session::SessionHandler;
use cycling_tracker::handler::sqlite::SQLiteHandler;
use cycling_tracker::handler::workout::WorkoutHandler;
use cycling_tracker::measurement::Measurement;
use cycling_tracker::plan::{end_workout, next_control_step, ControlStep, Step, StepType, WorkoutStep};
use cycling_tracker::status::Code;
use cycling_tracker::workout::{Workout, WorkoutRequest, WorkoutSummary};

fn measurements() -> Vec<Measurement> {
    vec![
        Measurement { speed_milli: 29_000, watts: 290, rpm: 90, heartrate: 130 },
        Measurement { speed_milli: 30_000, watts: 300, rpm: 95, heartrate: 140 },
        Measurement { speed_milli: 31_000, watts: 310, rpm: 100, heartrate: 150 },
    ]
}

fn expected_summary() -> WorkoutSummary {
    WorkoutSummary {
        id: Some(1),
        km_ridden_milli: 53_500,
        avg_speed_milli: 30_000,
        avg_watts: 300,
        avg_rpm: 95,
        avg_heartrate: 140,
        measurements: measurements(),
    }
}

fn tracker() -> CyclingTrackerService {
    let mut redis = RedisHandler::new();
    redis.set_key(&"session-token".to_string(), &"user1".to_string(), None);
    CyclingTrackerService::new(
        WorkoutHandler { sqlite_handler: SQLiteHandler::new() },
        SessionHandler { redis_handler: redis },
    )
}

#[test]
fn test_save_workout_and_get_measurements() {
    let mut service = tracker();
    let token = "session-token".to_string();

    let actual_response = service
        .save_workout(Some(&token), &Workout { km_ridden_milli: 53_500, measurements: measurements() })
        .expect("Failed to save workout");

    assert_eq!(actual_response, expected_summary());

    let actual_measurements = service
        .get_measurements(Some(&token), WorkoutRequest { id: 1 })
        .expect("Failed to get measurements");

    assert_eq!(actual_measurements, measurements());
}

#[test]
fn test_record_workout() {
    let mut service = tracker();
    let token = "session-token".to_string();

    let actual_response = service
        .record_workout(Some(&token), measurements())
        .expect("Failed to record workout");

    assert_eq!(actual_response, expected_summary());
}

#[test]
fn test_get_current_averages() {
    let service = tracker();
    let token = "session-token".to_string();

    let actual_response = service
        .get_current_averages(Some(&token), &measurements())
        .expect("Failed to get current averages");

    let expected_response = vec![
        WorkoutSummary {
            id: None,
            km_ridden_milli: 29_000,
            avg_speed_milli: 29_000,
            avg_watts: 290,
            avg_rpm: 90,
            avg_heartrate: 130,
            measurements: vec![Measurement { speed_milli: 29_000, watts: 290, rpm: 90, heartrate: 130 }],
        },
        WorkoutSummary {
            id: None,
            km_ridden_milli: 59_000,
            avg_speed_milli: 29_500,
            avg_watts: 295,
            avg_rpm: 92,
            avg_heartrate: 135,
            measurements: vec![
                Measurement { speed_milli: 29_000, watts: 290, rpm: 90, heartrate: 130 },
                Measurement { speed_milli: 30_000, watts: 300, rpm: 95, heartrate: 140 },
            ],
        },
        WorkoutSummary {
            id: None,
            km_ridden_milli: 90_000,
            avg_speed_milli: 30_000,
            avg_watts: 300,
            avg_rpm: 95,
            avg_heartrate: 140,
            measurements: vec![
                Measurement { speed_milli: 29_000, watts: 290, rpm: 90, heartrate: 130 },
                Measurement { speed_milli: 30_000, watts: 300, rpm: 95, heartrate: 140 },
                Measurement { speed_milli: 31_000, watts: 310, rpm: 100, heartrate: 150 },
            ],
        },
    ];

    assert_eq!(actual_response, expected_response);
}

#[test]
fn run_workout_guided_session() {
    let service = tracker();
    let token = "session-token".to_string();

    let events = vec![WorkoutStep { stype: 0 }, WorkoutStep { stype: 1 }, WorkoutStep { stype: 2 }];
    let out = service.run_workout(Some(&token), &events).expect("Failed to run workout");

    assert_eq!(
        out,
        vec![
            ControlStep { stype: StepType::Starting, resistance: Some(150), workout_summary_id: None },
            ControlStep { stype: StepType::InProgress, resistance: Some(200), workout_summary_id: None },
            ControlStep { stype: StepType::Ending, resistance: None, workout_summary_id: Some(1) },
        ]
    );
}

#[test]
fn run_workout_exhausted_plan_serves_default() {
    let service = tracker();
    let token = "session-token".to_string();

    let events = vec![
        WorkoutStep { stype: 0 },
        WorkoutStep { stype: 1 },
        WorkoutStep { stype: 1 },
        WorkoutStep { stype: 1 },
    ];
    let out = service.run_workout(Some(&token), &events).expect("Failed to run workout");

    assert_eq!(out.len(), 4);
    assert_eq!(out[0].resistance, Some(150));
    assert_eq!(out[1].resistance, Some(200));
    assert_eq!(out[2].resistance, Some(0));
    assert_eq!(out[3].resistance, Some(0));
}

#[test]
fn run_workout_empty_stream_yields_empty_stream() {
    let service = tracker();
    let token = "session-token".to_string();

    let out = service.run_workout(Some(&token), &vec![]).expect("Failed to run workout");

    assert!(out.is_empty());
}

#[test]
fn run_workout_malformed_code_fails() {
    let service = tracker();
    let token = "session-token".to_string();

    let events = vec![WorkoutStep { stype: 0 }, WorkoutStep { stype: 7 }];
    let err = service.run_workout(Some(&token), &events).unwrap_err();

    assert_eq!(err.code(), Code::InvalidArgument);
}

#[test]
fn run_workout_requires_auth() {
    let service = tracker();

    let err = service.run_workout(None, &vec![WorkoutStep { stype: 0 }]).unwrap_err();
    assert_eq!(err.code(), Code::Unauthenticated);

    let bad = "wrong-token".to_string();
    let err = service.run_workout(Some(&bad), &vec![WorkoutStep { stype: 0 }]).unwrap_err();
    assert_eq!(err.code(), Code::Unauthenticated);
}

#[test]
fn save_workout_requires_auth() {
    let mut service = tracker();

    let err = service
        .save_workout(None, &Workout { km_ridden_milli: 0, measurements: vec![] })
        .unwrap_err();

    assert_eq!(err.code(), Code::Unauthenticated);
}

#[test]
fn empty_workout_yields_zeroed_averages_and_keeps_distance() {
    let mut service = tracker();
    let token = "session-token".to_string();

    let summary = service
        .save_workout(Some(&token), &Workout { km_ridden_milli: 53_500, measurements: vec![] })
        .expect("Failed to save workout");

    assert_eq!(
        summary,
        WorkoutSummary {
            id: Some(1),
            km_ridden_milli: 53_500,
            avg_speed_milli: 0,
            avg_watts: 0,
            avg_rpm: 0,
            avg_heartrate: 0,
            measurements: vec![],
        }
    );
}

#[test]
fn get_measurements_unknown_id_is_empty() {
    let service = tracker();
    let token = "session-token".to_string();

    let ms = service
        .get_measurements(Some(&token), WorkoutRequest { id: 5 })
        .expect("Failed to get measurements");

    assert!(ms.is_empty());
}

#[test]
fn get_current_averages_empty_stream_yields_empty_stream() {
    let service = tracker();
    let token = "session-token".to_string();

    let out = service
        .get_current_averages(Some(&token), &vec![])
        .expect("Failed to get current averages");

    assert!(out.is_empty());
}

#[test]
fn create_summary_is_pure_and_unidentified() {
    let handler = WorkoutHandler { sqlite_handler: SQLiteHandler::new() };

    let summary = handler
        .create_summary(&Workout { km_ridden_milli: 53_500, measurements: measurements() });

    assert_eq!(summary.id, None);
    assert_eq!(summary.km_ridden_milli, 53_500);
    assert_eq!(summary.avg_speed_milli, 30_000);
    assert_eq!(summary.avg_watts, 300);
    assert_eq!(summary.avg_rpm, 95);
    assert_eq!(summary.avg_heartrate, 140);
    assert_eq!(summary.measurements, measurements());
}

#[test]
fn truncated_averages_round_toward_zero() {
    let handler = WorkoutHandler { sqlite_handler: SQLiteHandler::new() };

    // Sums 7, 7, 7 over two samples: integer fields truncate to 3,
    // the speed average keeps thousandths.
    let summary = handler.create_summary(
        &Workout {
            km_ridden_milli: 0,
            measurements: vec![
                Measurement { speed_milli: 3, watts: 3, rpm: 3, heartrate: 3 },
                Measurement { speed_milli: 4, watts: 4, rpm: 4, heartrate: 4 },
            ],
        },
    );

    assert_eq!(summary.avg_speed_milli, 3);
    assert_eq!(summary.avg_watts, 3);
    assert_eq!(summary.avg_rpm, 3);
    assert_eq!(summary.avg_heartrate, 3);
}

#[test]
fn measurement_add_sums_fields() {
    let a = Measurement { speed_milli: 29_000, watts: 290, rpm: 90, heartrate: 130 };
    let b = Measurement { speed_milli: 30_000, watts: 300, rpm: 95, heartrate: 140 };

    let c = a.add(b);

    assert_eq!(c, Measurement { speed_milli: 59_000, watts: 590, rpm: 185, heartrate: 270 });
}

#[test]
fn next_control_step_pops_front() {
    let mut steps: VecDeque<Step> = VecDeque::new();
    steps.push_back(Step { watts: 150, duration: 2 });
    steps.push_back(Step { watts: 200, duration: 2 });

    let first = next_control_step(StepType::Starting, &mut steps);
    assert_eq!(first.resistance, Some(150));
    assert_eq!(first.stype, StepType::Starting);
    assert_eq!(first.workout_summary_id, None);

    let second = next_control_step(StepType::InProgress, &mut steps);
    assert_eq!(second.resistance, Some(200));

    let exhausted = next_control_step(StepType::InProgress, &mut steps);
    assert_eq!(exhausted.resistance, Some(0));
}

#[test]
fn end_workout_carries_summary_id() {
    let closing = end_workout();

    assert_eq!(closing.stype, StepType::Ending);
    assert_eq!(closing.resistance, None);
    assert_eq!(closing.workout_summary_id, Some(1));
}

#[test]
fn create_workout_plan_returns_placeholder() {
    let service = tracker();

    let token = service
        .create_workout_plan(&cycling_tracker::plan::WorkoutPlan { steps: vec![] });

    assert_eq!(token.workout_token, 0);
}

#[test]
fn save_plan_returns_fixed_token() {
    let store = SQLiteHandler::new();

    let token = store.save_plan(&cycling_tracker::plan::WorkoutPlan { steps: vec![] });

    assert_eq!(token.workout_token, 1);
}

#[test]
fn malformed_step_reports_reason() {
    let service = tracker();
    let token = "session-token".to_string();

    let err = service
        .run_workout(Some(&token), &vec![WorkoutStep { stype: -1 }])
        .unwrap_err();

    assert_eq!(err.code(), Code::InvalidArgument);
    assert_eq!(err.message, "Malformed step type");
}

#[test]
fn saved_workouts_get_sequential_ids() {
    let mut service = tracker();
    let token = "session-token".to_string();

    let first = service
        .save_workout(Some(&token), &Workout { km_ridden_milli: 1_000, measurements: vec![] })
        .expect("Failed to save workout");
    let second = service
        .save_workout(Some(&token), &Workout { km_ridden_milli: 2_000, measurements: vec![] })
        .expect("Failed to save workout");

    assert_eq!(first.id, Some(1));
    assert_eq!(second.id, Some(2));
}
