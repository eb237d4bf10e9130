pub mod keyboard;
pub mod mouse;
pub mod recorder;
pub mod smooth_scroll;
pub mod wheel_hook;
