//! A sprite that moves with the arrow keys and wraps around the edges of a
//! fixed viewport, and a frame counter that reports frames per second.
pub mod rate;
pub mod stepper;

pub use rate::{FrameCounter, Sample, FPS_COUNTER_INTERVAL_MS};
pub use stepper::{
    wrap_axis, HeldKeys, Key, Movable, Viewport, PLAYER_HEIGHT, PLAYER_WIDTH, SCREEN_HEIGHT,
    SCREEN_WIDTH, SPEED,
};
