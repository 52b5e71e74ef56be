//! Target-size media transcoding: bitrate budgets, probe parsing, encoder
//! invocations and the progress state machine of each encode job.

pub mod encoder;
pub mod inputs;
pub mod media;
pub mod number;
pub mod paths;
pub mod planner;
pub mod probe;
pub mod progress;
pub mod registry;
pub mod text;
pub mod timecode;
pub mod ui;
