//! A fitness-tracking library: workout summaries folded from sensor
//! measurements, a guided-training step cursor, and session authentication.
//!
//! Speeds and distances are carried as integers in thousandths of a unit
//! (one unit of speed contributes one unit of distance per sample in the
//! live-averages protocol), so that every computation here is exact.
pub mod grpc;
pub mod handler;
pub mod measurement;
pub mod plan;
pub mod status;
pub mod workout;

pub use grpc::auth::SessionAuthService;
pub use grpc::cycling_tracker::CyclingTrackerService;
pub use measurement::Measurement;
pub use workout::{Workout, WorkoutSummary};
