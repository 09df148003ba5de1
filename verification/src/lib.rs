//! Verified core of a C-facing wrapper around the WebRTC-derived `aec3`
//! audio processors: high-pass filter, echo canceller (AEC3) and gain
//! controller (AGC2).
//!
//! The library holds the processors' decisions: argument and configuration
//! checks, frame accounting, channel (de)interleaving, sample counters and the
//! integer part of the per-call statistics.

pub mod status;
pub mod checks;
pub mod channels;
pub mod frame_io;
pub mod high_pass;
pub mod echo;
pub mod gain;

pub use channels::{deinterleave, interleave_into};
pub use checks::{
    bool_from_ffi, checked_frame_batch_length, checked_frame_length, checked_pointer, checked_slice,
    i32_from_usize, is_aligned, non_negative, optional_output, optional_stats, valid_channels,
    valid_sample_rate,
};
pub use echo::{CapturePlan, CaptureReport, EchoCancellerSettings, EchoCancellerState, EchoConfigValues, make_echo_config};
pub use frame_io::AudioFrameIo;
pub use gain::{GainConfigValues, GainControllerSettings, GainControllerState, GainPlan, GainReport, make_gain_configs};
pub use high_pass::{HighPassHandle, HighPassReport, MetaAec3HighPass, MetaAec3HighPassConfig};
pub use status::{
    ffi_create, ffi_status, query_status, META_AEC3_BUFFER_TOO_SMALL, META_AEC3_INVALID_ARGUMENT,
    META_AEC3_INVALID_CONFIG, META_AEC3_NULL_POINTER, META_AEC3_OK, META_AEC3_PANIC,
};
