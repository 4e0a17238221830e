//! The four steps of a tick, in the order in which a match runs them: paddle
//! motion, ball motion, collisions, scoring.

pub mod bounce;
pub mod move_balls;
pub mod paddle;
pub mod winner;

pub use self::bounce::BounceSystem;
pub use self::move_balls::MoveBallsSystem;
pub use self::paddle::PaddleSystem;
pub use self::winner::WinnerSystem;
