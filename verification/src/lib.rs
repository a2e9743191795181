//! Verified core of a low-latency video streaming system: timestamp
//! management, frame-rate detection and pacing, H.264 bitstream scanning,
//! fragmented-MP4 box construction, retry policies, latency statistics and
//! the small parsers and state machines that the streaming services use.

pub mod std_types;
pub mod errors;
pub mod timestamp;
pub mod byte_buf;
pub mod be_bytes;
pub mod stream_types;
pub mod fmp4;
pub mod h264;
pub mod live_stream;
pub mod detector;
pub mod recovery;
pub mod pacer;
pub mod sorting;
pub mod statistics;
pub mod latency;
pub mod protocol;
pub mod forwarding;
pub mod text;
pub mod http;
pub mod sources;
pub mod keyframe_index;
pub mod playback;
pub mod media_files;
pub mod registry;
pub mod device_control;
pub mod file_stream;
pub mod device_manager;
pub mod pixels;
pub mod recordings;
