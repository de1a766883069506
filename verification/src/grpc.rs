//! The two services exposed over the remote-procedure boundary: session
//! authentication and the cycling tracker itself.
pub mod auth;
pub mod cycling_tracker;

pub use auth::SessionAuthService;
pub use cycling_tracker::CyclingTrackerService;
