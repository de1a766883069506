//! The handlers behind the two services: storage models and the session
//! token manager.
pub mod redis;
pub mod session;
pub mod user;
pub mod sqlite;
pub mod workout;

pub use redis::RedisHandler;
pub use session::SessionHandler;
pub use sqlite::SQLiteHandler;
pub use user::UserHandler;
pub use workout::WorkoutHandler;
