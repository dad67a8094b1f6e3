//! Fixed-step motion and collision for a small platform game: a jumping
//! actor, a paddle, static walls and destructible bricks, on integer
//! coordinates.

pub mod geometry;
pub mod level;
pub mod motion;
pub mod world;
