pub mod distance;
pub mod drag;
pub mod engine;
pub mod pinch;
pub mod swipe;
pub mod tap;
pub mod two_finger;
