//! Acquisition and buffering of raw frames and audio.
pub mod capture_engine;
pub mod capturer;
pub mod display;
pub mod error;
pub mod ffi;
pub mod frame;
pub mod lifecycle;
pub mod pcm_buffer;
pub mod pcm_history;
pub mod screen_recorder;
