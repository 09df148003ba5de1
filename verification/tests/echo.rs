use meta_aec3::{make_echo_config, EchoCancellerSettings, EchoCancellerState};

/// The integer fields of the echo canceller's default configuration.
fn default_settings() -> EchoCancellerSettings {
    EchoCancellerSettings {
        sample_rate_hz: 48_000,
        render_channels: 1,
        capture_channels: 1,
        initial_delay_ms: 0,
        fixed_capture_delay_samples: 0,
        excess_render_detection_interval_blocks: 250,
        max_allowed_excess_render_blocks: 8,
        delay_default_blocks: 5,
        delay_down_sampling_factor: 4,
        delay_num_filters: 5,
        delay_headroom_samples: 32,
        delay_hysteresis_limit_blocks: 1,
        delay_selection_threshold_initial: 5,
        delay_selection_threshold_converged: 20,
        delay_use_external_estimator: 0,
        delay_log_warnings: 0,
        render_alignment_downmix: 0,
        render_alignment_adaptive_selection: 1,
        render_alignment_prefer_first_two_channels: 1,
        capture_alignment_downmix: 0,
        capture_alignment_adaptive_selection: 1,
        capture_alignment_prefer_first_two_channels: 0,
        main_filter_length_blocks: 13,
        main_initial_filter_length_blocks: 12,
        shadow_filter_length_blocks: 13,
        shadow_initial_filter_length_blocks: 12,
        filter_config_change_duration_blocks: 250,
        shadow_reset_hangover_blocks: 25,
        use_shadow_reset_hangover: 1,
        conservative_initial_phase: 0,
        enable_shadow_filter_output_usage: 1,
        use_linear_filter: 1,
        export_linear_aec_output: 0,
        erle_onset_detection: 1,
        erle_num_sections: 1,
        erle_clamp_to_zero: 1,
        erle_clamp_to_one: 1,
        ep_strength_echo_can_saturate: 1,
        ep_strength_bounded_erl: 0,
        echo_audibility_use_stationarity_properties: 0,
        echo_audibility_use_stationarity_properties_at_init: 0,
        has_clock_drift: 0,
        linear_and_stable_echo_path: 0,
        enable_transparent_mode: 1,
        transparent_mode_use_hmm: 0,
        echo_model_noise_floor_hold: 50,
        echo_model_render_pre_window_size: 1,
        echo_model_render_post_window_size: 1,
        suppressor_nearend_average_blocks: 4,
        dominant_nearend_hold_duration: 50,
        dominant_nearend_trigger_threshold: 12,
        dominant_nearend_use_during_initial_phase: 1,
        subband_nearend_average_blocks: 1,
        subband1_low: 1,
        subband1_high: 1,
        subband2_low: 1,
        subband2_high: 1,
        enable_subband_nearend_detection: 0,
    }
}

#[test]
fn aec_plans_eight_channel_render_and_linear_capture_calls() {
    let settings = EchoCancellerSettings {
        render_channels: 8,
        export_linear_aec_output: 1,
        ..default_settings()
    };
    let (mut state, values) = EchoCancellerState::new(settings).expect("accepted");
    assert!(values.export_linear_aec_output);

    // Two 10-ms frames arrive together (20 ms total).
    let render_len = 480 * 8 * 2;
    assert_eq!(state.begin_render(render_len), Ok(2));
    state.finish_render(render_len);
    let plan = state.begin_capture(960, 960, Some(320)).expect("accepted");
    assert_eq!(plan.batches, 2);
    assert_eq!(plan.needed, 960);
    assert_eq!(plan.linear_needed, 320);
    let report = state.finish_capture(plan.needed);
    assert_eq!(report.processed_samples, 960);
    assert_eq!(report.output_samples, 960);
    assert_eq!(report.total_render_samples, 7_680);
    assert_eq!(report.total_capture_samples, 960);
}

#[test]
fn aec_default_values_are_converted() {
    let values = make_echo_config(&default_settings()).unwrap();
    assert_eq!(values.excess_render_detection_interval_blocks, 250);
    assert_eq!(values.main_filter_length_blocks, 13);
    assert_eq!(values.delay_selection_threshold_converged, 20);
    assert!(values.use_linear_filter);
    assert!(!values.export_linear_aec_output);
    assert!(values.enable_transparent_mode);
}

#[test]
fn aec_refuses_invalid_settings() {
    let invalid = [
        EchoCancellerSettings { sample_rate_hz: 8_000, ..default_settings() },
        EchoCancellerSettings { render_channels: 9, ..default_settings() },
        EchoCancellerSettings { render_channels: 0, ..default_settings() },
        EchoCancellerSettings { capture_channels: 3, ..default_settings() },
        EchoCancellerSettings { initial_delay_ms: -1, ..default_settings() },
        EchoCancellerSettings { subband2_high: -1, ..default_settings() },
        EchoCancellerSettings { delay_num_filters: -5, ..default_settings() },
    ];
    for settings in invalid {
        assert_eq!(EchoCancellerState::new(settings).err(), Some(-2));
    }
    assert_eq!(make_echo_config(&EchoCancellerSettings { erle_num_sections: -1, ..default_settings() }).err(), Some(-2));
}

#[test]
fn aec_frame_sizes() {
    let (state, _) = EchoCancellerState::new(default_settings()).unwrap();
    assert_eq!(state.render_samples_per_10ms(), 480);
    assert_eq!(state.capture_samples_per_10ms(), 480);
    let stereo = EchoCancellerSettings { sample_rate_hz: 16_000, render_channels: 8, capture_channels: 2, ..default_settings() };
    let (state, _) = EchoCancellerState::new(stereo).unwrap();
    assert_eq!(state.render_samples_per_10ms(), 1_280);
    assert_eq!(state.capture_samples_per_10ms(), 320);
    assert_eq!(state.render_samples_per_frame(), 1_280);
}

#[test]
fn aec_render_needs_whole_frames() {
    let (mut state, _) = EchoCancellerState::new(default_settings()).unwrap();
    assert_eq!(state.begin_render(0), Err(-3));
    assert_eq!(state.begin_render(479), Err(-3));
    assert_eq!(state.begin_render(1_440), Ok(3));
    state.finish_render(1_440);
    state.finish_render(480);
    assert_eq!(state.finish_capture(0).total_render_samples, 1_920);
}

#[test]
fn aec_capture_checks_in_order() {
    let (state, _) = EchoCancellerState::new(default_settings()).unwrap();
    assert_eq!(state.begin_capture(100, 0, Some(0)).err(), Some(-3));
    assert_eq!(state.begin_capture(960, 959, Some(0)).err(), Some(-4));
    // linear output was not exported
    assert_eq!(state.begin_capture(960, 960, Some(320)).err(), Some(-3));
    let plan = state.begin_capture(960, 2_000, None).unwrap();
    assert_eq!(plan.linear_samples_per_frame, 0);
    assert_eq!(plan.linear_needed, 0);

    let exported = EchoCancellerSettings { export_linear_aec_output: 1, ..default_settings() };
    let (state, _) = EchoCancellerState::new(exported).unwrap();
    assert_eq!(state.begin_capture(960, 960, Some(319)).err(), Some(-4));
    let plan = state.begin_capture(960, 960, Some(320)).unwrap();
    assert_eq!(plan.linear_samples_per_frame, 160);
    assert!(state.linear_io().is_some());
}

#[test]
fn aec_stream_delay_is_stored() {
    let (mut state, _) = EchoCancellerState::new(default_settings()).unwrap();
    assert_eq!(state.set_stream_delay_ms(-1), Err(-3));
    assert_eq!(state.settings().initial_delay_ms, 0);
    assert_eq!(state.set_stream_delay_ms(40), Ok(()));
    assert_eq!(state.settings().initial_delay_ms, 40);
}

#[test]
fn aec_capture_counter_accumulates() {
    let (mut state, _) = EchoCancellerState::new(default_settings()).unwrap();
    assert_eq!(state.finish_capture(480).total_capture_samples, 480);
    let report = state.finish_capture(960);
    assert_eq!(report.total_capture_samples, 1_440);
    assert_eq!(report.sample_rate_hz, 48_000);
    assert_eq!(report.capture_channels, 1);
}

#[test]
fn aec_default_settings() {
    assert_eq!(EchoCancellerSettings::default(), default_settings());
}

#[test]
fn aec_hands_out_each_frame_buffer() {
    let settings = EchoCancellerSettings {
        sample_rate_hz: 32_000,
        render_channels: 4,
        capture_channels: 2,
        export_linear_aec_output: 1,
        ..default_settings()
    };
    let (mut state, _) = EchoCancellerState::new(settings).expect("accepted");
    assert_eq!(state.render_io().buffer().num_channels(), 4);
    assert_eq!(state.render_io().buffer().num_frames(), 320);
    assert_eq!(state.capture_io().buffer().num_channels(), 2);
    assert_eq!(state.capture_io().buffer().num_frames(), 320);
    let linear = state.linear_io().expect("exported");
    assert_eq!(linear.buffer().num_channels(), 2);
    assert_eq!(linear.buffer().num_frames(), 160);
    {
        let (capture, linear) = state.capture_buffers_mut();
        assert_eq!(capture.num_channels(), 2);
        assert_eq!(capture.num_frames(), 320);
        capture.channel_mut(1)[5] = 7.0;
        let linear = linear.expect("exported");
        assert_eq!(linear.num_frames(), 160);
        linear.channel_mut(0)[3] = -2.0;
    }
    assert_eq!(state.capture_io().buffer().channel(1)[5], 7.0);
    assert_eq!(state.linear_io().unwrap().buffer().channel(0)[3], -2.0);
    assert_eq!(state.render_io().buffer().channel(1)[5], 0.0);
    assert!(state.split_render_bands());
    assert!(state.split_capture_bands());
    assert!(state.merge_capture_bands());
}

#[test]
fn aec_without_linear_export_hands_out_no_linear_buffer() {
    let (mut state, _) = EchoCancellerState::new(default_settings()).expect("accepted");
    assert!(state.linear_io().is_none());
    let (capture, linear) = state.capture_buffers_mut();
    assert_eq!(capture.num_frames(), 480);
    assert!(linear.is_none());
}
