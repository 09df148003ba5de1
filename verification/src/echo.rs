//! The echo canceller (AEC3): its integer settings, the checks that decide
//! whether a configuration and a render or capture call are accepted, the
//! frame accounting of those calls and the sample counters.

use vstd::prelude::*;
use aec3::audio_processing::audio_buffer::AudioBuffer;
use crate::checks::{
    add_to_total, bool_from_ffi, checked_frame_batch_length, i32_from_usize, i32_max,
    is_supported_rate, non_negative, saturating_total, valid_channels, valid_sample_rate,
};
use crate::frame_io::{audio_buffer_channels, merged_from_bands, split_into_bands, AudioFrameIo};
use crate::status::{META_AEC3_BUFFER_TOO_SMALL, META_AEC3_INVALID_ARGUMENT, META_AEC3_INVALID_CONFIG};

verus! {

/// The integer fields of the echo canceller's configuration (the C
/// interface passes booleans as integers, nonzero meaning true).
#[derive(Clone, Copy, Debug, PartialEq, Eq)]
pub struct EchoCancellerSettings {
    pub sample_rate_hz: i32,
    pub render_channels: i32,
    pub capture_channels: i32,
    pub initial_delay_ms: i32,
    pub fixed_capture_delay_samples: i32,
    pub excess_render_detection_interval_blocks: i32,
    pub max_allowed_excess_render_blocks: i32,
    pub delay_default_blocks: i32,
    pub delay_down_sampling_factor: i32,
    pub delay_num_filters: i32,
    pub delay_headroom_samples: i32,
    pub delay_hysteresis_limit_blocks: i32,
    pub delay_selection_threshold_initial: i32,
    pub delay_selection_threshold_converged: i32,
    pub delay_use_external_estimator: i32,
    pub delay_log_warnings: i32,
    pub render_alignment_downmix: i32,
    pub render_alignment_adaptive_selection: i32,
    pub render_alignment_prefer_first_two_channels: i32,
    pub capture_alignment_downmix: i32,
    pub capture_alignment_adaptive_selection: i32,
    pub capture_alignment_prefer_first_two_channels: i32,
    pub main_filter_length_blocks: i32,
    pub main_initial_filter_length_blocks: i32,
    pub shadow_filter_length_blocks: i32,
    pub shadow_initial_filter_length_blocks: i32,
    pub filter_config_change_duration_blocks: i32,
    pub shadow_reset_hangover_blocks: i32,
    pub use_shadow_reset_hangover: i32,
    pub conservative_initial_phase: i32,
    pub enable_shadow_filter_output_usage: i32,
    pub use_linear_filter: i32,
    pub export_linear_aec_output: i32,
    pub erle_onset_detection: i32,
    pub erle_num_sections: i32,
    pub erle_clamp_to_zero: i32,
    pub erle_clamp_to_one: i32,
    pub ep_strength_echo_can_saturate: i32,
    pub ep_strength_bounded_erl: i32,
    pub echo_audibility_use_stationarity_properties: i32,
    pub echo_audibility_use_stationarity_properties_at_init: i32,
    pub has_clock_drift: i32,
    pub linear_and_stable_echo_path: i32,
    pub enable_transparent_mode: i32,
    pub transparent_mode_use_hmm: i32,
    pub echo_model_noise_floor_hold: i32,
    pub echo_model_render_pre_window_size: i32,
    pub echo_model_render_post_window_size: i32,
    pub suppressor_nearend_average_blocks: i32,
    pub dominant_nearend_hold_duration: i32,
    pub dominant_nearend_trigger_threshold: i32,
    pub dominant_nearend_use_during_initial_phase: i32,
    pub subband_nearend_average_blocks: i32,
    pub subband1_low: i32,
    pub subband1_high: i32,
    pub subband2_low: i32,
    pub subband2_high: i32,
    pub enable_subband_nearend_detection: i32,
}

impl Default for EchoCancellerSettings {
    /// The integer fields of the echo canceller's default configuration:
    /// 48 kHz, mono render and capture, no linear-output export.
    fn default() -> (s: Self)
        ensures
            s == (EchoCancellerSettings {
                sample_rate_hz: 48_000,
                render_channels: 1,
                capture_channels: 1,
                initial_delay_ms: 0,
                fixed_capture_delay_samples: 0,
                excess_render_detection_interval_blocks: 250,
                max_allowed_excess_render_blocks: 8,
                delay_default_blocks: 5,
                delay_down_sampling_factor: 4,
                delay_num_filters: 5,
                delay_headroom_samples: 32,
                delay_hysteresis_limit_blocks: 1,
                delay_selection_threshold_initial: 5,
                delay_selection_threshold_converged: 20,
                delay_use_external_estimator: 0,
                delay_log_warnings: 0,
                render_alignment_downmix: 0,
                render_alignment_adaptive_selection: 1,
                render_alignment_prefer_first_two_channels: 1,
                capture_alignment_downmix: 0,
                capture_alignment_adaptive_selection: 1,
                capture_alignment_prefer_first_two_channels: 0,
                main_filter_length_blocks: 13,
                main_initial_filter_length_blocks: 12,
                shadow_filter_length_blocks: 13,
                shadow_initial_filter_length_blocks: 12,
                filter_config_change_duration_blocks: 250,
                shadow_reset_hangover_blocks: 25,
                use_shadow_reset_hangover: 1,
                conservative_initial_phase: 0,
                enable_shadow_filter_output_usage: 1,
                use_linear_filter: 1,
                export_linear_aec_output: 0,
                erle_onset_detection: 1,
                erle_num_sections: 1,
                erle_clamp_to_zero: 1,
                erle_clamp_to_one: 1,
                ep_strength_echo_can_saturate: 1,
                ep_strength_bounded_erl: 0,
                echo_audibility_use_stationarity_properties: 0,
                echo_audibility_use_stationarity_properties_at_init: 0,
                has_clock_drift: 0,
                linear_and_stable_echo_path: 0,
                enable_transparent_mode: 1,
                transparent_mode_use_hmm: 0,
                echo_model_noise_floor_hold: 50,
                echo_model_render_pre_window_size: 1,
                echo_model_render_post_window_size: 1,
                suppressor_nearend_average_blocks: 4,
                dominant_nearend_hold_duration: 50,
                dominant_nearend_trigger_threshold: 12,
                dominant_nearend_use_during_initial_phase: 1,
                subband_nearend_average_blocks: 1,
                subband1_low: 1,
                subband1_high: 1,
                subband2_low: 1,
                subband2_high: 1,
                enable_subband_nearend_detection: 0,
            }),
    {
        EchoCancellerSettings {
        sample_rate_hz: 48_000,
        render_channels: 1,
        capture_channels: 1,
        initial_delay_ms: 0,
        fixed_capture_delay_samples: 0,
        excess_render_detection_interval_blocks: 250,
        max_allowed_excess_render_blocks: 8,
        delay_default_blocks: 5,
        delay_down_sampling_factor: 4,
        delay_num_filters: 5,
        delay_headroom_samples: 32,
        delay_hysteresis_limit_blocks: 1,
        delay_selection_threshold_initial: 5,
        delay_selection_threshold_converged: 20,
        delay_use_external_estimator: 0,
        delay_log_warnings: 0,
        render_alignment_downmix: 0,
        render_alignment_adaptive_selection: 1,
        render_alignment_prefer_first_two_channels: 1,
        capture_alignment_downmix: 0,
        capture_alignment_adaptive_selection: 1,
        capture_alignment_prefer_first_two_channels: 0,
        main_filter_length_blocks: 13,
        main_initial_filter_length_blocks: 12,
        shadow_filter_length_blocks: 13,
        shadow_initial_filter_length_blocks: 12,
        filter_config_change_duration_blocks: 250,
        shadow_reset_hangover_blocks: 25,
        use_shadow_reset_hangover: 1,
        conservative_initial_phase: 0,
        enable_shadow_filter_output_usage: 1,
        use_linear_filter: 1,
        export_linear_aec_output: 0,
        erle_onset_detection: 1,
        erle_num_sections: 1,
        erle_clamp_to_zero: 1,
        erle_clamp_to_one: 1,
        ep_strength_echo_can_saturate: 1,
        ep_strength_bounded_erl: 0,
        echo_audibility_use_stationarity_properties: 0,
        echo_audibility_use_stationarity_properties_at_init: 0,
        has_clock_drift: 0,
        linear_and_stable_echo_path: 0,
        enable_transparent_mode: 1,
        transparent_mode_use_hmm: 0,
        echo_model_noise_floor_hold: 50,
        echo_model_render_pre_window_size: 1,
        echo_model_render_post_window_size: 1,
        suppressor_nearend_average_blocks: 4,
        dominant_nearend_hold_duration: 50,
        dominant_nearend_trigger_threshold: 12,
        dominant_nearend_use_during_initial_phase: 1,
        subband_nearend_average_blocks: 1,
        subband1_low: 1,
        subband1_high: 1,
        subband2_low: 1,
        subband2_high: 1,
        enable_subband_nearend_detection: 0,
        }
    }
}

/// The configuration values the echo canceller is built with, converted
/// from the integer settings.
#[derive(Clone, Copy, Debug, PartialEq, Eq)]
pub struct EchoConfigValues {
    pub excess_render_detection_interval_blocks: usize,
    pub max_allowed_excess_render_blocks: usize,
    pub delay_default_blocks: usize,
    pub delay_down_sampling_factor: usize,
    pub delay_num_filters: usize,
    pub delay_headroom_samples: usize,
    pub delay_hysteresis_limit_blocks: usize,
    pub fixed_capture_delay_samples: usize,
    pub main_filter_length_blocks: usize,
    pub main_initial_filter_length_blocks: usize,
    pub shadow_filter_length_blocks: usize,
    pub shadow_initial_filter_length_blocks: usize,
    pub filter_config_change_duration_blocks: usize,
    pub shadow_reset_hangover_blocks: usize,
    pub erle_num_sections: usize,
    pub echo_model_noise_floor_hold: usize,
    pub echo_model_render_pre_window_size: usize,
    pub echo_model_render_post_window_size: usize,
    pub suppressor_nearend_average_blocks: usize,
    pub dominant_nearend_hold_duration: usize,
    pub dominant_nearend_trigger_threshold: usize,
    pub subband_nearend_average_blocks: usize,
    pub subband1_low: usize,
    pub subband1_high: usize,
    pub subband2_low: usize,
    pub subband2_high: usize,
    pub delay_selection_threshold_initial: i32,
    pub delay_selection_threshold_converged: i32,
    pub delay_use_external_estimator: bool,
    pub delay_log_warnings: bool,
    pub render_alignment_downmix: bool,
    pub render_alignment_adaptive_selection: bool,
    pub render_alignment_prefer_first_two_channels: bool,
    pub capture_alignment_downmix: bool,
    pub capture_alignment_adaptive_selection: bool,
    pub capture_alignment_prefer_first_two_channels: bool,
    pub use_shadow_reset_hangover: bool,
    pub conservative_initial_phase: bool,
    pub enable_shadow_filter_output_usage: bool,
    pub use_linear_filter: bool,
    pub export_linear_aec_output: bool,
    pub erle_onset_detection: bool,
    pub erle_clamp_to_zero: bool,
    pub erle_clamp_to_one: bool,
    pub ep_strength_echo_can_saturate: bool,
    pub ep_strength_bounded_erl: bool,
    pub echo_audibility_use_stationarity_properties: bool,
    pub echo_audibility_use_stationarity_properties_at_init: bool,
    pub has_clock_drift: bool,
    pub linear_and_stable_echo_path: bool,
    pub enable_transparent_mode: bool,
    pub transparent_mode_use_hmm: bool,
    pub dominant_nearend_use_during_initial_phase: bool,
    pub enable_subband_nearend_detection: bool,
}

/// Every configured count is non-negative.
pub open spec fn echo_counts_non_negative(s: EchoCancellerSettings) -> bool {
    &&& s.excess_render_detection_interval_blocks >= 0
    &&& s.max_allowed_excess_render_blocks >= 0
    &&& s.delay_default_blocks >= 0
    &&& s.delay_down_sampling_factor >= 0
    &&& s.delay_num_filters >= 0
    &&& s.delay_headroom_samples >= 0
    &&& s.delay_hysteresis_limit_blocks >= 0
    &&& s.fixed_capture_delay_samples >= 0
    &&& s.main_filter_length_blocks >= 0
    &&& s.main_initial_filter_length_blocks >= 0
    &&& s.shadow_filter_length_blocks >= 0
    &&& s.shadow_initial_filter_length_blocks >= 0
    &&& s.filter_config_change_duration_blocks >= 0
    &&& s.shadow_reset_hangover_blocks >= 0
    &&& s.erle_num_sections >= 0
    &&& s.echo_model_noise_floor_hold >= 0
    &&& s.echo_model_render_pre_window_size >= 0
    &&& s.echo_model_render_post_window_size >= 0
    &&& s.suppressor_nearend_average_blocks >= 0
    &&& s.dominant_nearend_hold_duration >= 0
    &&& s.dominant_nearend_trigger_threshold >= 0
    &&& s.subband_nearend_average_blocks >= 0
    &&& s.subband1_low >= 0
    &&& s.subband1_high >= 0
    &&& s.subband2_low >= 0
    &&& s.subband2_high >= 0
}

/// `v` holds the settings `s` converted: counts as they are, booleans as
/// "nonzero".
pub open spec fn echo_values_match(s: EchoCancellerSettings, v: EchoConfigValues) -> bool {
    &&& v.excess_render_detection_interval_blocks == s.excess_render_detection_interval_blocks
    &&& v.max_allowed_excess_render_blocks == s.max_allowed_excess_render_blocks
    &&& v.delay_default_blocks == s.delay_default_blocks
    &&& v.delay_down_sampling_factor == s.delay_down_sampling_factor
    &&& v.delay_num_filters == s.delay_num_filters
    &&& v.delay_headroom_samples == s.delay_headroom_samples
    &&& v.delay_hysteresis_limit_blocks == s.delay_hysteresis_limit_blocks
    &&& v.fixed_capture_delay_samples == s.fixed_capture_delay_samples
    &&& v.main_filter_length_blocks == s.main_filter_length_blocks
    &&& v.main_initial_filter_length_blocks == s.main_initial_filter_length_blocks
    &&& v.shadow_filter_length_blocks == s.shadow_filter_length_blocks
    &&& v.shadow_initial_filter_length_blocks == s.shadow_initial_filter_length_blocks
    &&& v.filter_config_change_duration_blocks == s.filter_config_change_duration_blocks
    &&& v.shadow_reset_hangover_blocks == s.shadow_reset_hangover_blocks
    &&& v.erle_num_sections == s.erle_num_sections
    &&& v.echo_model_noise_floor_hold == s.echo_model_noise_floor_hold
    &&& v.echo_model_render_pre_window_size == s.echo_model_render_pre_window_size
    &&& v.echo_model_render_post_window_size == s.echo_model_render_post_window_size
    &&& v.suppressor_nearend_average_blocks == s.suppressor_nearend_average_blocks
    &&& v.dominant_nearend_hold_duration == s.dominant_nearend_hold_duration
    &&& v.dominant_nearend_trigger_threshold == s.dominant_nearend_trigger_threshold
    &&& v.subband_nearend_average_blocks == s.subband_nearend_average_blocks
    &&& v.subband1_low == s.subband1_low
    &&& v.subband1_high == s.subband1_high
    &&& v.subband2_low == s.subband2_low
    &&& v.subband2_high == s.subband2_high
    &&& v.delay_selection_threshold_initial == s.delay_selection_threshold_initial
    &&& v.delay_selection_threshold_converged == s.delay_selection_threshold_converged
    &&& v.delay_use_external_estimator == (s.delay_use_external_estimator != 0)
    &&& v.delay_log_warnings == (s.delay_log_warnings != 0)
    &&& v.render_alignment_downmix == (s.render_alignment_downmix != 0)
    &&& v.render_alignment_adaptive_selection == (s.render_alignment_adaptive_selection != 0)
    &&& v.render_alignment_prefer_first_two_channels == (s.render_alignment_prefer_first_two_channels != 0)
    &&& v.capture_alignment_downmix == (s.capture_alignment_downmix != 0)
    &&& v.capture_alignment_adaptive_selection == (s.capture_alignment_adaptive_selection != 0)
    &&& v.capture_alignment_prefer_first_two_channels == (s.capture_alignment_prefer_first_two_channels != 0)
    &&& v.use_shadow_reset_hangover == (s.use_shadow_reset_hangover != 0)
    &&& v.conservative_initial_phase == (s.conservative_initial_phase != 0)
    &&& v.enable_shadow_filter_output_usage == (s.enable_shadow_filter_output_usage != 0)
    &&& v.use_linear_filter == (s.use_linear_filter != 0)
    &&& v.export_linear_aec_output == (s.export_linear_aec_output != 0)
    &&& v.erle_onset_detection == (s.erle_onset_detection != 0)
    &&& v.erle_clamp_to_zero == (s.erle_clamp_to_zero != 0)
    &&& v.erle_clamp_to_one == (s.erle_clamp_to_one != 0)
    &&& v.ep_strength_echo_can_saturate == (s.ep_strength_echo_can_saturate != 0)
    &&& v.ep_strength_bounded_erl == (s.ep_strength_bounded_erl != 0)
    &&& v.echo_audibility_use_stationarity_properties == (s.echo_audibility_use_stationarity_properties != 0)
    &&& v.echo_audibility_use_stationarity_properties_at_init == (s.echo_audibility_use_stationarity_properties_at_init != 0)
    &&& v.has_clock_drift == (s.has_clock_drift != 0)
    &&& v.linear_and_stable_echo_path == (s.linear_and_stable_echo_path != 0)
    &&& v.enable_transparent_mode == (s.enable_transparent_mode != 0)
    &&& v.transparent_mode_use_hmm == (s.transparent_mode_use_hmm != 0)
    &&& v.dominant_nearend_use_during_initial_phase == (s.dominant_nearend_use_during_initial_phase != 0)
    &&& v.enable_subband_nearend_detection == (s.enable_subband_nearend_detection != 0)
}

/// The converted configuration holds every count and threshold as set, and
/// turns every flag on exactly when its setting is nonzero.
pub proof fn lemma_echo_values_convert(s: EchoCancellerSettings, v: EchoConfigValues)
    requires
        echo_values_match(s, v),
    ensures
        v.excess_render_detection_interval_blocks as int == s.excess_render_detection_interval_blocks as int,
        v.max_allowed_excess_render_blocks as int == s.max_allowed_excess_render_blocks as int,
        v.delay_default_blocks as int == s.delay_default_blocks as int,
        v.delay_down_sampling_factor as int == s.delay_down_sampling_factor as int,
        v.delay_num_filters as int == s.delay_num_filters as int,
        v.delay_headroom_samples as int == s.delay_headroom_samples as int,
        v.delay_hysteresis_limit_blocks as int == s.delay_hysteresis_limit_blocks as int,
        v.fixed_capture_delay_samples as int == s.fixed_capture_delay_samples as int,
        v.main_filter_length_blocks as int == s.main_filter_length_blocks as int,
        v.main_initial_filter_length_blocks as int == s.main_initial_filter_length_blocks as int,
        v.shadow_filter_length_blocks as int == s.shadow_filter_length_blocks as int,
        v.shadow_initial_filter_length_blocks as int == s.shadow_initial_filter_length_blocks as int,
        v.filter_config_change_duration_blocks as int == s.filter_config_change_duration_blocks as int,
        v.shadow_reset_hangover_blocks as int == s.shadow_reset_hangover_blocks as int,
        v.erle_num_sections as int == s.erle_num_sections as int,
        v.echo_model_noise_floor_hold as int == s.echo_model_noise_floor_hold as int,
        v.echo_model_render_pre_window_size as int == s.echo_model_render_pre_window_size as int,
        v.echo_model_render_post_window_size as int == s.echo_model_render_post_window_size as int,
        v.suppressor_nearend_average_blocks as int == s.suppressor_nearend_average_blocks as int,
        v.dominant_nearend_hold_duration as int == s.dominant_nearend_hold_duration as int,
        v.dominant_nearend_trigger_threshold as int == s.dominant_nearend_trigger_threshold as int,
        v.subband_nearend_average_blocks as int == s.subband_nearend_average_blocks as int,
        v.subband1_low as int == s.subband1_low as int,
        v.subband1_high as int == s.subband1_high as int,
        v.subband2_low as int == s.subband2_low as int,
        v.subband2_high as int == s.subband2_high as int,
        v.delay_selection_threshold_initial as int == s.delay_selection_threshold_initial as int,
        v.delay_selection_threshold_converged as int == s.delay_selection_threshold_converged as int,
        v.delay_use_external_estimator == (s.delay_use_external_estimator != 0),
        v.delay_log_warnings == (s.delay_log_warnings != 0),
        v.render_alignment_downmix == (s.render_alignment_downmix != 0),
        v.render_alignment_adaptive_selection == (s.render_alignment_adaptive_selection != 0),
        v.render_alignment_prefer_first_two_channels == (s.render_alignment_prefer_first_two_channels != 0),
        v.capture_alignment_downmix == (s.capture_alignment_downmix != 0),
        v.capture_alignment_adaptive_selection == (s.capture_alignment_adaptive_selection != 0),
        v.capture_alignment_prefer_first_two_channels == (s.capture_alignment_prefer_first_two_channels != 0),
        v.use_shadow_reset_hangover == (s.use_shadow_reset_hangover != 0),
        v.conservative_initial_phase == (s.conservative_initial_phase != 0),
        v.enable_shadow_filter_output_usage == (s.enable_shadow_filter_output_usage != 0),
        v.use_linear_filter == (s.use_linear_filter != 0),
        v.export_linear_aec_output == (s.export_linear_aec_output != 0),
        v.erle_onset_detection == (s.erle_onset_detection != 0),
        v.erle_clamp_to_zero == (s.erle_clamp_to_zero != 0),
        v.erle_clamp_to_one == (s.erle_clamp_to_one != 0),
        v.ep_strength_echo_can_saturate == (s.ep_strength_echo_can_saturate != 0),
        v.ep_strength_bounded_erl == (s.ep_strength_bounded_erl != 0),
        v.echo_audibility_use_stationarity_properties == (s.echo_audibility_use_stationarity_properties != 0),
        v.echo_audibility_use_stationarity_properties_at_init == (s.echo_audibility_use_stationarity_properties_at_init != 0),
        v.has_clock_drift == (s.has_clock_drift != 0),
        v.linear_and_stable_echo_path == (s.linear_and_stable_echo_path != 0),
        v.enable_transparent_mode == (s.enable_transparent_mode != 0),
        v.transparent_mode_use_hmm == (s.transparent_mode_use_hmm != 0),
        v.dominant_nearend_use_during_initial_phase == (s.dominant_nearend_use_during_initial_phase != 0),
        v.enable_subband_nearend_detection == (s.enable_subband_nearend_detection != 0),
{
}

/// The accepted stream formats: 16, 32 or 48 kHz, 1 to 8 render channels, 1
/// or 2 capture channels, whatever the rate, and a delay of zero or more.
pub proof fn lemma_echo_stream_accepted(s: EchoCancellerSettings)
    ensures
        echo_stream_valid(s) <==> (
            (s.sample_rate_hz == 16_000 || s.sample_rate_hz == 32_000 || s.sample_rate_hz == 48_000)
            && 1 <= s.render_channels <= 8
            && 1 <= s.capture_channels <= 2
            && s.initial_delay_ms >= 0
        ),
{
}

/// A configuration is refused for a negative count exactly: every count
/// may be zero or more.
pub proof fn lemma_echo_counts_accepted(s: EchoCancellerSettings)
    ensures
        echo_counts_non_negative(s) <==> (
            s.excess_render_detection_interval_blocks >= 0
            && s.max_allowed_excess_render_blocks >= 0
            && s.delay_default_blocks >= 0
            && s.delay_down_sampling_factor >= 0
            && s.delay_num_filters >= 0
            && s.delay_headroom_samples >= 0
            && s.delay_hysteresis_limit_blocks >= 0
            && s.fixed_capture_delay_samples >= 0
            && s.main_filter_length_blocks >= 0
            && s.main_initial_filter_length_blocks >= 0
            && s.shadow_filter_length_blocks >= 0
            && s.shadow_initial_filter_length_blocks >= 0
            && s.filter_config_change_duration_blocks >= 0
            && s.shadow_reset_hangover_blocks >= 0
            && s.erle_num_sections >= 0
            && s.echo_model_noise_floor_hold >= 0
            && s.echo_model_render_pre_window_size >= 0
            && s.echo_model_render_post_window_size >= 0
            && s.suppressor_nearend_average_blocks >= 0
            && s.dominant_nearend_hold_duration >= 0
            && s.dominant_nearend_trigger_threshold >= 0
            && s.subband_nearend_average_blocks >= 0
            && s.subband1_low >= 0
            && s.subband1_high >= 0
            && s.subband2_low >= 0
            && s.subband2_high >= 0
        ),
{
}

/// A 10-ms frame holds `rate / 100` samples on each channel: 160, 320 or
/// 480 per channel at the accepted rates, and 160 per capture channel in
/// the 16-kHz linear output.
pub proof fn lemma_echo_frame_lengths(s: EchoCancellerSettings)
    requires
        echo_stream_valid(s),
    ensures
        render_frame_len(s) == (s.sample_rate_hz / 100) * s.render_channels,
        capture_frame_len(s) == (s.sample_rate_hz / 100) * s.capture_channels,
        s.sample_rate_hz == 16_000 ==> capture_frame_len(s) == 160 * s.capture_channels,
        s.sample_rate_hz == 32_000 ==> capture_frame_len(s) == 320 * s.capture_channels,
        s.sample_rate_hz == 48_000 ==> capture_frame_len(s) == 480 * s.capture_channels,
        linear_frames() == 160,
{
}

/// The stream format and initial delay are accepted: a supported rate, 1 to
/// 8 render channels, 1 or 2 capture channels and a non-negative delay.
pub open spec fn echo_stream_valid(s: EchoCancellerSettings) -> bool {
    &&& is_supported_rate(s.sample_rate_hz as int)
    &&& 1 <= s.render_channels <= 8
    &&& 1 <= s.capture_channels <= 2
    &&& s.initial_delay_ms >= 0
}

/// Interleaved render samples in one 10-ms frame.
pub open spec fn render_frame_len(s: EchoCancellerSettings) -> int {
    (s.sample_rate_hz / 100) * s.render_channels
}

/// Interleaved capture samples in one 10-ms frame.
pub open spec fn capture_frame_len(s: EchoCancellerSettings) -> int {
    (s.sample_rate_hz / 100) * s.capture_channels
}

/// Samples per channel of the linear-filter output frame (16 kHz, 10 ms).
pub open spec fn linear_frames() -> int {
    160
}

/// Converts the integer settings into the values the echo canceller is
/// built with; a negative count is refused.
pub fn make_echo_config(s: &EchoCancellerSettings) -> (r: Result<EchoConfigValues, i32>)
    ensures
        r is Ok <==> echo_counts_non_negative(*s),
        r matches Ok(v) ==> echo_values_match(*s, v),
        r matches Err(e) ==> e == META_AEC3_INVALID_CONFIG,
{
    Ok(EchoConfigValues {
        excess_render_detection_interval_blocks: non_negative(s.excess_render_detection_interval_blocks)?,
        max_allowed_excess_render_blocks: non_negative(s.max_allowed_excess_render_blocks)?,
        delay_default_blocks: non_negative(s.delay_default_blocks)?,
        delay_down_sampling_factor: non_negative(s.delay_down_sampling_factor)?,
        delay_num_filters: non_negative(s.delay_num_filters)?,
        delay_headroom_samples: non_negative(s.delay_headroom_samples)?,
        delay_hysteresis_limit_blocks: non_negative(s.delay_hysteresis_limit_blocks)?,
        fixed_capture_delay_samples: non_negative(s.fixed_capture_delay_samples)?,
        main_filter_length_blocks: non_negative(s.main_filter_length_blocks)?,
        main_initial_filter_length_blocks: non_negative(s.main_initial_filter_length_blocks)?,
        shadow_filter_length_blocks: non_negative(s.shadow_filter_length_blocks)?,
        shadow_initial_filter_length_blocks: non_negative(s.shadow_initial_filter_length_blocks)?,
        filter_config_change_duration_blocks: non_negative(s.filter_config_change_duration_blocks)?,
        shadow_reset_hangover_blocks: non_negative(s.shadow_reset_hangover_blocks)?,
        erle_num_sections: non_negative(s.erle_num_sections)?,
        echo_model_noise_floor_hold: non_negative(s.echo_model_noise_floor_hold)?,
        echo_model_render_pre_window_size: non_negative(s.echo_model_render_pre_window_size)?,
        echo_model_render_post_window_size: non_negative(s.echo_model_render_post_window_size)?,
        suppressor_nearend_average_blocks: non_negative(s.suppressor_nearend_average_blocks)?,
        dominant_nearend_hold_duration: non_negative(s.dominant_nearend_hold_duration)?,
        dominant_nearend_trigger_threshold: non_negative(s.dominant_nearend_trigger_threshold)?,
        subband_nearend_average_blocks: non_negative(s.subband_nearend_average_blocks)?,
        subband1_low: non_negative(s.subband1_low)?,
        subband1_high: non_negative(s.subband1_high)?,
        subband2_low: non_negative(s.subband2_low)?,
        subband2_high: non_negative(s.subband2_high)?,
        delay_selection_threshold_initial: s.delay_selection_threshold_initial,
        delay_selection_threshold_converged: s.delay_selection_threshold_converged,
        delay_use_external_estimator: bool_from_ffi(s.delay_use_external_estimator),
        delay_log_warnings: bool_from_ffi(s.delay_log_warnings),
        render_alignment_downmix: bool_from_ffi(s.render_alignment_downmix),
        render_alignment_adaptive_selection: bool_from_ffi(s.render_alignment_adaptive_selection),
        render_alignment_prefer_first_two_channels: bool_from_ffi(s.render_alignment_prefer_first_two_channels),
        capture_alignment_downmix: bool_from_ffi(s.capture_alignment_downmix),
        capture_alignment_adaptive_selection: bool_from_ffi(s.capture_alignment_adaptive_selection),
        capture_alignment_prefer_first_two_channels: bool_from_ffi(s.capture_alignment_prefer_first_two_channels),
        use_shadow_reset_hangover: bool_from_ffi(s.use_shadow_reset_hangover),
        conservative_initial_phase: bool_from_ffi(s.conservative_initial_phase),
        enable_shadow_filter_output_usage: bool_from_ffi(s.enable_shadow_filter_output_usage),
        use_linear_filter: bool_from_ffi(s.use_linear_filter),
        export_linear_aec_output: bool_from_ffi(s.export_linear_aec_output),
        erle_onset_detection: bool_from_ffi(s.erle_onset_detection),
        erle_clamp_to_zero: bool_from_ffi(s.erle_clamp_to_zero),
        erle_clamp_to_one: bool_from_ffi(s.erle_clamp_to_one),
        ep_strength_echo_can_saturate: bool_from_ffi(s.ep_strength_echo_can_saturate),
        ep_strength_bounded_erl: bool_from_ffi(s.ep_strength_bounded_erl),
        echo_audibility_use_stationarity_properties: bool_from_ffi(s.echo_audibility_use_stationarity_properties),
        echo_audibility_use_stationarity_properties_at_init: bool_from_ffi(s.echo_audibility_use_stationarity_properties_at_init),
        has_clock_drift: bool_from_ffi(s.has_clock_drift),
        linear_and_stable_echo_path: bool_from_ffi(s.linear_and_stable_echo_path),
        enable_transparent_mode: bool_from_ffi(s.enable_transparent_mode),
        transparent_mode_use_hmm: bool_from_ffi(s.transparent_mode_use_hmm),
        dominant_nearend_use_during_initial_phase: bool_from_ffi(s.dominant_nearend_use_during_initial_phase),
        enable_subband_nearend_detection: bool_from_ffi(s.enable_subband_nearend_detection),
    })
}

/// The frame accounting of an accepted capture call.
pub struct CapturePlan {
    /// Number of 10-ms frames in the call.
    pub batches: usize,
    /// Interleaved capture samples per frame.
    pub samples_per_frame: usize,
    /// Output samples the call writes (all of its input).
    pub needed: usize,
    /// Interleaved linear-output samples per frame (0 when not exported).
    pub linear_samples_per_frame: usize,
    /// Linear-output samples the call writes.
    pub linear_needed: usize,
}

/// The integer part of the statistics of one capture call.
pub struct CaptureReport {
    pub sample_rate_hz: i32,
    pub render_channels: i32,
    pub capture_channels: i32,
    /// Samples processed by the call, saturating at `i32::MAX`.
    pub processed_samples: i32,
    /// Samples written by the call, saturating at `i32::MAX`.
    pub output_samples: i32,
    pub total_render_samples: u64,
    pub total_capture_samples: u64,
}

/// Echo canceller state around the DSP canceller: settings, frame buffers
/// and sample counters.
pub struct EchoCancellerState {
    settings: EchoCancellerSettings,
    render_io: AudioFrameIo,
    capture_io: AudioFrameIo,
    linear_io: Option<AudioFrameIo>,
    total_render_samples: u64,
    total_capture_samples: u64,
}

impl EchoCancellerState {
    /// The current settings.
    pub closed spec fn settings_of(&self) -> EchoCancellerSettings {
        self.settings
    }

    /// Render samples queued since creation.
    pub closed spec fn render_total(&self) -> u64 {
        self.total_render_samples
    }

    /// Capture samples processed since creation.
    pub closed spec fn capture_total(&self) -> u64 {
        self.total_capture_samples
    }

    /// The render frame buffer.
    pub closed spec fn render_io_of(&self) -> AudioFrameIo {
        self.render_io
    }

    /// The capture frame buffer.
    pub closed spec fn capture_io_of(&self) -> AudioFrameIo {
        self.capture_io
    }

    /// The linear-output frame buffer, when exported.
    pub closed spec fn linear_io_of(&self) -> Option<AudioFrameIo> {
        self.linear_io
    }

    /// Whether the linear-filter output is exported.
    pub closed spec fn linear_enabled(&self) -> bool {
        self.linear_io is Some
    }

    /// The settings are accepted ones and the frame buffers match them.
    pub closed spec fn wf(&self) -> bool {
        &&& echo_stream_valid(self.settings)
        &&& self.render_io.wf()
        &&& self.render_io.channel_count() == self.settings.render_channels
        &&& self.render_io.frame_count() == self.settings.sample_rate_hz / 100
        &&& self.capture_io.wf()
        &&& self.capture_io.channel_count() == self.settings.capture_channels
        &&& self.capture_io.frame_count() == self.settings.sample_rate_hz / 100
        &&& (self.linear_io is Some <==> self.settings.export_linear_aec_output != 0)
        &&& (self.linear_io matches Some(io) ==> {
            &&& io.wf()
            &&& io.channel_count() == self.settings.capture_channels
            &&& io.frame_count() == linear_frames()
        })
    }

    /// Every valid state holds accepted stream settings, and exports the
    /// linear-filter output exactly when its settings ask for it.
    pub proof fn lemma_wf_settings(&self)
        requires
            self.wf(),
        ensures
            echo_stream_valid(self.settings_of()),
            self.linear_enabled() == (self.settings_of().export_linear_aec_output != 0),
    {
    }

    /// Checks the settings and sets up the frame buffers; also gives the
    /// values the DSP canceller is to be configured with. A refused
    /// configuration gives `META_AEC3_INVALID_CONFIG`.
    pub fn new(settings: EchoCancellerSettings) -> (r: Result<(Self, EchoConfigValues), i32>)
        ensures
            r is Ok <==> (echo_stream_valid(settings) && echo_counts_non_negative(settings)),
            r matches Ok((state, values)) ==> {
                &&& state.wf()
                &&& state.settings_of() == settings
                &&& state.linear_enabled() == (settings.export_linear_aec_output != 0)
                &&& state.render_io_of().buffer_matches()
                &&& state.capture_io_of().buffer_matches()
                &&& (state.linear_io_of() matches Some(io) ==> io.buffer_matches())
                &&& state.render_total() == 0
                &&& state.capture_total() == 0
                &&& echo_values_match(settings, values)
            },
            r matches Err(e) ==> e == META_AEC3_INVALID_CONFIG,
    {
        let sample_rate_hz = valid_sample_rate(settings.sample_rate_hz)?;
        let render_channels = valid_channels(settings.render_channels, 8)?;
        let capture_channels = valid_channels(settings.capture_channels, 2)?;
        if settings.initial_delay_ms < 0 {
            return Err(META_AEC3_INVALID_CONFIG);
        }
        let values = make_echo_config(&settings)?;
        let linear_io = if bool_from_ffi(settings.export_linear_aec_output) {
            Some(AudioFrameIo::new(16_000, capture_channels))
        } else {
            None
        };
        let state = EchoCancellerState {
            settings,
            render_io: AudioFrameIo::new(sample_rate_hz, render_channels),
            capture_io: AudioFrameIo::new(sample_rate_hz, capture_channels),
            linear_io,
            total_render_samples: 0,
            total_capture_samples: 0,
        };
        Ok((state, values))
    }

    /// The current settings.
    pub fn settings(&self) -> (s: EchoCancellerSettings)
        ensures
            s == self.settings_of(),
    {
        self.settings
    }

    /// Sets the delay between render and capture; a negative delay is
    /// refused and changes nothing.
    pub fn set_stream_delay_ms(&mut self, delay_ms: i32) -> (r: Result<(), i32>)
        requires
            old(self).wf(),
        ensures
            final(self).wf(),
            r is Ok <==> delay_ms >= 0,
            r is Ok ==> final(self).settings_of() == (EchoCancellerSettings { initial_delay_ms: delay_ms, ..old(self).settings_of() }),
            r is Err ==> *final(self) == *old(self),
            final(self).render_total() == old(self).render_total(),
            final(self).capture_total() == old(self).capture_total(),
            final(self).linear_enabled() == old(self).linear_enabled(),
            r matches Err(e) ==> e == META_AEC3_INVALID_ARGUMENT,
    {
        if delay_ms < 0 {
            return Err(META_AEC3_INVALID_ARGUMENT);
        }
        self.settings.initial_delay_ms = delay_ms;
        Ok(())
    }

    /// The render frame buffer.
    pub fn render_io(&self) -> (io: &AudioFrameIo)
        requires
            self.wf(),
        ensures
            *io == self.render_io_of(),
            io.wf(),
            io.channel_count() == self.settings_of().render_channels,
            io.frame_count() == self.settings_of().sample_rate_hz / 100,
    {
        &self.render_io
    }

    /// The render frame's DSP buffer, to load a frame into and analyze; the
    /// state otherwise stays as it is.
    pub fn render_buffer_mut(&mut self) -> (buffer: &mut AudioBuffer)
        requires
            old(self).wf(),
        ensures
            *buffer == old(self).render_io_of().buffer_of(),
            final(self).render_io_of() == old(self).render_io_of().with_buffer(*final(buffer)),
            final(self).capture_io_of() == old(self).capture_io_of(),
            final(self).linear_io_of() == old(self).linear_io_of(),
            final(self).wf(),
            final(self).settings_of() == old(self).settings_of(),
            final(self).render_total() == old(self).render_total(),
            final(self).capture_total() == old(self).capture_total(),
            final(self).linear_enabled() == old(self).linear_enabled(),
    {
        self.render_io.buffer_mut()
    }

    /// Interleaved render samples per 10-ms frame.
    pub fn render_samples_per_frame(&self) -> (n: usize)
        requires
            self.wf(),
        ensures
            n == render_frame_len(self.settings_of()),
    {
        self.render_io.samples_per_frame()
    }

    /// Checks a render call of `input_len` interleaved samples: it must hold
    /// one or more whole 10-ms frames. Gives the number of frames.
    pub fn begin_render(&self, input_len: usize) -> (r: Result<usize, i32>)
        requires
            self.wf(),
        ensures
            r is Ok <==> (input_len != 0 && (input_len as int) % render_frame_len(self.settings_of()) == 0),
            r matches Ok(batches) ==> batches * render_frame_len(self.settings_of()) == input_len,
            r matches Ok(batches) ==> batches >= 1,
            r matches Err(e) ==> e == META_AEC3_INVALID_ARGUMENT,
    {
        let per_frame = self.render_io.samples_per_frame();
        let r = checked_frame_batch_length(input_len, self.settings.render_channels as usize, self.render_io.frames());
        proof {
            vstd::arithmetic::mul::lemma_mul_is_commutative(self.render_io.frame_count() as int, self.settings.render_channels as int);
            assert(per_frame == render_frame_len(self.settings));
            assert(per_frame > 0) by (nonlinear_arith)
                requires
                    per_frame == self.render_io.frame_count() * self.render_io.channel_count(),
                    self.render_io.frame_count() >= 160,
                    self.render_io.channel_count() >= 1,
            ;
            assert(crate::checks::saturating_product(self.settings.render_channels as usize as int, self.render_io.frame_count() as int) == render_frame_len(self.settings));
        }
        r
    }

    /// Counts the samples of an accepted render call.
    pub fn finish_render(&mut self, input_len: usize)
        requires
            old(self).wf(),
        ensures
            final(self).wf(),
            final(self).settings_of() == old(self).settings_of(),
            final(self).render_total() == saturating_total(old(self).render_total(), input_len as u64),
            final(self).capture_total() == old(self).capture_total(),
            final(self).linear_enabled() == old(self).linear_enabled(),
    {
        self.total_render_samples = add_to_total(self.total_render_samples, input_len);
    }

    /// The capture frame buffer.
    pub fn capture_io(&self) -> (io: &AudioFrameIo)
        requires
            self.wf(),
        ensures
            *io == self.capture_io_of(),
            io.wf(),
            io.channel_count() == self.settings_of().capture_channels,
            io.frame_count() == self.settings_of().sample_rate_hz / 100,
    {
        &self.capture_io
    }

    /// The linear-filter output frame buffer, present when that output is
    /// exported.
    pub fn linear_io(&self) -> (io: Option<&AudioFrameIo>)
        requires
            self.wf(),
        ensures
            io is Some <==> self.linear_enabled(),
            io matches Some(i) ==> Some(*i) == self.linear_io_of(),
            io matches Some(io) ==> {
                &&& io.wf()
                &&& io.channel_count() == self.settings_of().capture_channels
                &&& io.frame_count() == linear_frames()
            },
    {
        match &self.linear_io {
            Some(io) => Some(io),
            None => None,
        }
    }

    /// The capture frame's DSP buffer and, when exported, the linear-output
    /// frame's, to load, process and read back a frame; the state otherwise
    /// stays as it is.
    pub fn capture_buffers_mut(&mut self) -> (buffers: (&mut AudioBuffer, Option<&mut AudioBuffer>))
        requires
            old(self).wf(),
        ensures
            *buffers.0 == old(self).capture_io_of().buffer_of(),
            final(self).capture_io_of() == old(self).capture_io_of().with_buffer(*final(buffers.0)),
            buffers.1 is Some <==> old(self).linear_enabled(),
            buffers.1 matches Some(b) ==> (old(self).linear_io_of() matches Some(io) && *b == io.buffer_of()
                && final(self).linear_io_of() == Some(io.with_buffer(*final(b)))),
            buffers.1 is None ==> final(self).linear_io_of() == old(self).linear_io_of(),
            final(self).render_io_of() == old(self).render_io_of(),
            final(self).wf(),
            final(self).settings_of() == old(self).settings_of(),
            final(self).render_total() == old(self).render_total(),
            final(self).capture_total() == old(self).capture_total(),
            final(self).linear_enabled() == old(self).linear_enabled(),
    {
        let capture = self.capture_io.buffer_mut();
        let linear = match &mut self.linear_io {
            Some(io) => Some(io.buffer_mut()),
            None => None,
        };
        (capture, linear)
    }

    /// Checks a capture call of `input_len` interleaved samples with an
    /// output buffer of `output_len` samples and, optionally, a linear-output
    /// buffer of `linear_len` samples. In this order: the input must hold one
    /// or more whole 10-ms frames (else `META_AEC3_INVALID_ARGUMENT`); the
    /// output must hold as many samples (else `META_AEC3_BUFFER_TOO_SMALL`);
    /// a linear-output buffer is accepted only when that output is exported
    /// (else `META_AEC3_INVALID_ARGUMENT`) and must hold 160 samples per
    /// capture channel and frame (else `META_AEC3_BUFFER_TOO_SMALL`).
    pub fn begin_capture(&self, input_len: usize, output_len: usize, linear_len: Option<usize>) -> (r: Result<CapturePlan, i32>)
        requires
            self.wf(),
        ensures
            ({
                let per_frame = capture_frame_len(self.settings_of());
                let whole = input_len != 0 && (input_len as int) % per_frame == 0;
                let batches = (input_len as int) / per_frame;
                let linear_per_frame = if self.linear_enabled() { linear_frames() * self.settings_of().capture_channels } else { 0 };
                &&& r is Ok <==> (whole && output_len >= input_len
                    && (linear_len is Some ==> self.linear_enabled())
                    && (linear_len matches Some(l) ==> l >= batches * linear_per_frame))
                &&& !whole ==> r == Err::<CapturePlan, i32>(META_AEC3_INVALID_ARGUMENT)
                &&& whole && output_len < input_len ==> r == Err::<CapturePlan, i32>(META_AEC3_BUFFER_TOO_SMALL)
                &&& whole && output_len >= input_len && linear_len is Some && !self.linear_enabled()
                        ==> r == Err::<CapturePlan, i32>(META_AEC3_INVALID_ARGUMENT)
                &&& whole && output_len >= input_len && self.linear_enabled()
                        && (linear_len matches Some(l) && l < batches * linear_per_frame)
                        ==> r == Err::<CapturePlan, i32>(META_AEC3_BUFFER_TOO_SMALL)
                &&& r matches Ok(plan) ==> {
                    &&& whole
                    &&& output_len >= input_len
                    &&& (linear_len is Some ==> self.linear_enabled())
                    &&& (linear_len matches Some(l) ==> l >= batches * linear_per_frame)
                    &&& plan.batches == batches
                    &&& plan.batches >= 1
                    &&& plan.samples_per_frame == per_frame
                    &&& plan.needed == input_len
                    &&& plan.batches * plan.samples_per_frame == input_len
                    &&& plan.linear_samples_per_frame == linear_per_frame
                    &&& plan.linear_needed == batches * linear_per_frame
                }
            }),
    {
        let samples_per_frame = self.capture_io.samples_per_frame();
        proof {
            vstd::arithmetic::mul::lemma_mul_is_commutative(self.capture_io.frame_count() as int, self.settings.capture_channels as int);
            assert(samples_per_frame > 0) by (nonlinear_arith)
                requires
                    samples_per_frame == self.capture_io.frame_count() * self.capture_io.channel_count(),
                    self.capture_io.frame_count() >= 160,
                    self.capture_io.channel_count() >= 1,
            ;
        }
        let batches = checked_frame_batch_length(
            input_len,
            self.settings.capture_channels as usize,
            self.capture_io.frames(),
        )?;
        let needed = batches * samples_per_frame;
        if output_len < needed {
            return Err(META_AEC3_BUFFER_TOO_SMALL);
        }
        if linear_len.is_some() && self.linear_io.is_none() {
            return Err(META_AEC3_INVALID_ARGUMENT);
        }
        let linear_samples_per_frame = match &self.linear_io {
            Some(io) => io.samples_per_frame(),
            None => 0,
        };
        proof {
            // a linear frame is never longer than a capture frame
            assert(linear_samples_per_frame <= samples_per_frame) by (nonlinear_arith)
                requires
                    samples_per_frame == self.capture_io.frame_count() * self.settings.capture_channels,
                    linear_samples_per_frame <= 160 * self.settings.capture_channels,
                    self.capture_io.frame_count() >= 160,
                    self.settings.capture_channels >= 1,
            ;
            assert(batches * linear_samples_per_frame <= batches * samples_per_frame) by (nonlinear_arith)
                requires
                    linear_samples_per_frame <= samples_per_frame,
                    batches >= 0,
            ;
        }
        let linear_needed = batches * linear_samples_per_frame;
        if let Some(len) = linear_len {
            if len < linear_needed {
                return Err(META_AEC3_BUFFER_TOO_SMALL);
            }
        }
        Ok(CapturePlan {
            batches,
            samples_per_frame,
            needed,
            linear_samples_per_frame,
            linear_needed,
        })
    }

    /// Counts the samples of an accepted capture call that wrote `needed`
    /// samples, and reports the call.
    pub fn finish_capture(&mut self, needed: usize) -> (report: CaptureReport)
        requires
            old(self).wf(),
        ensures
            final(self).wf(),
            final(self).settings_of() == old(self).settings_of(),
            final(self).render_total() == old(self).render_total(),
            final(self).capture_total() == saturating_total(old(self).capture_total(), needed as u64),
            final(self).linear_enabled() == old(self).linear_enabled(),
            report.sample_rate_hz == old(self).settings_of().sample_rate_hz,
            report.render_channels == old(self).settings_of().render_channels,
            report.capture_channels == old(self).settings_of().capture_channels,
            report.processed_samples == (if needed <= i32_max() { needed as int } else { i32_max() }),
            report.output_samples == report.processed_samples,
            report.total_render_samples == final(self).render_total(),
            report.total_capture_samples == final(self).capture_total(),
    {
        self.total_capture_samples = add_to_total(self.total_capture_samples, needed);
        CaptureReport {
            sample_rate_hz: self.settings.sample_rate_hz,
            render_channels: self.settings.render_channels,
            capture_channels: self.settings.capture_channels,
            processed_samples: i32_from_usize(needed),
            output_samples: i32_from_usize(needed),
            total_render_samples: self.total_render_samples,
            total_capture_samples: self.total_capture_samples,
        }
    }

    /// Interleaved render samples in 10 ms of audio.
    pub fn render_samples_per_10ms(&self) -> (n: i32)
        requires
            self.wf(),
        ensures
            n == render_frame_len(self.settings_of()),
    {
        let n = self.render_io.samples_per_frame();
        proof {
            vstd::arithmetic::mul::lemma_mul_is_commutative(self.render_io.frame_count() as int, self.render_io.channel_count() as int);
            assert(n <= 480 * 8) by (nonlinear_arith)
                requires
                    n == self.render_io.frame_count() * self.render_io.channel_count(),
                    self.render_io.frame_count() <= 480,
                    self.render_io.channel_count() <= 8,
            ;
        }
        i32_from_usize(n)
    }

    /// Interleaved capture samples in 10 ms of audio.
    pub fn capture_samples_per_10ms(&self) -> (n: i32)
        requires
            self.wf(),
        ensures
            n == capture_frame_len(self.settings_of()),
    {
        let n = self.capture_io.samples_per_frame();
        proof {
            vstd::arithmetic::mul::lemma_mul_is_commutative(self.capture_io.frame_count() as int, self.capture_io.channel_count() as int);
            assert(n <= 480 * 8) by (nonlinear_arith)
                requires
                    n == self.capture_io.frame_count() * self.capture_io.channel_count(),
                    self.capture_io.frame_count() <= 480,
                    self.capture_io.channel_count() <= 8,
            ;
        }
        i32_from_usize(n)
    }

    /// Splits the loaded render frame into frequency bands. The render
    /// buffer must still be the one made for the render channels; one whose
    /// active channel count was changed is left as it is (`false`).
    pub fn split_render_bands(&mut self) -> (done: bool)
        requires
            old(self).wf(),
            old(self).render_io_of().keeps_channel_limit(),
        ensures
            done == (audio_buffer_channels(old(self).render_io_of().buffer_of()) == old(self).settings_of().render_channels),
            done ==> final(self).render_io_of() == old(self).render_io_of().with_buffer(
                split_into_bands(old(self).render_io_of().buffer_of()),
            ),
            !done ==> *final(self) == *old(self),
            final(self).render_io_of().keeps_channel_limit(),
            final(self).capture_io_of() == old(self).capture_io_of(),
            final(self).linear_io_of() == old(self).linear_io_of(),
            final(self).wf(),
            final(self).settings_of() == old(self).settings_of(),
            final(self).render_total() == old(self).render_total(),
            final(self).capture_total() == old(self).capture_total(),
            final(self).linear_enabled() == old(self).linear_enabled(),
    {
        self.render_io.split_bands()
    }

    /// Splits the loaded capture frame into frequency bands. The capture
    /// buffer must still be the one made for the capture channels; one whose
    /// active channel count was changed is left as it is (`false`).
    pub fn split_capture_bands(&mut self) -> (done: bool)
        requires
            old(self).wf(),
            old(self).capture_io_of().keeps_channel_limit(),
        ensures
            done == (audio_buffer_channels(old(self).capture_io_of().buffer_of()) == old(self).settings_of().capture_channels),
            done ==> final(self).capture_io_of() == old(self).capture_io_of().with_buffer(
                split_into_bands(old(self).capture_io_of().buffer_of()),
            ),
            !done ==> *final(self) == *old(self),
            final(self).capture_io_of().keeps_channel_limit(),
            final(self).render_io_of() == old(self).render_io_of(),
            final(self).linear_io_of() == old(self).linear_io_of(),
            final(self).wf(),
            final(self).settings_of() == old(self).settings_of(),
            final(self).render_total() == old(self).render_total(),
            final(self).capture_total() == old(self).capture_total(),
            final(self).linear_enabled() == old(self).linear_enabled(),
    {
        self.capture_io.split_bands()
    }

    /// Merges the processed capture bands back into the capture frame, under
    /// the same condition as the split.
    pub fn merge_capture_bands(&mut self) -> (done: bool)
        requires
            old(self).wf(),
            old(self).capture_io_of().keeps_channel_limit(),
        ensures
            done == (audio_buffer_channels(old(self).capture_io_of().buffer_of()) == old(self).settings_of().capture_channels),
            done ==> final(self).capture_io_of() == old(self).capture_io_of().with_buffer(
                merged_from_bands(old(self).capture_io_of().buffer_of()),
            ),
            !done ==> *final(self) == *old(self),
            final(self).capture_io_of().keeps_channel_limit(),
            final(self).render_io_of() == old(self).render_io_of(),
            final(self).linear_io_of() == old(self).linear_io_of(),
            final(self).wf(),
            final(self).settings_of() == old(self).settings_of(),
            final(self).render_total() == old(self).render_total(),
            final(self).capture_total() == old(self).capture_total(),
            final(self).linear_enabled() == old(self).linear_enabled(),
    {
        self.capture_io.merge_bands()
    }
}

} // verus!
