use meta_aec3::{make_gain_configs, GainControllerSettings, GainControllerState};

/// The integer fields of the gain controller's default configuration.
fn default_settings() -> GainControllerSettings {
    GainControllerSettings {
        sample_rate_hz: 48_000,
        channels: 1,
        enable_adaptive_digital: 1,
        enable_input_volume_controller: 0,
        use_internal_vad: 1,
        capture_output_used: 1,
        ivc_min_input_volume: 20,
        ivc_clipped_level_min: 70,
        ivc_clipped_level_step: 15,
        ivc_clipped_wait_frames: 300,
        ivc_enable_clipping_predictor: 1,
        ivc_target_range_max_dbfs: -30,
        ivc_target_range_experimental_max_dbfs: -12,
        ivc_target_range_min_dbfs: -50,
        ivc_update_input_volume_wait_frames: 100,
    }
}

#[test]
fn agc2_plans_and_counts_a_full_volume_call() {
    let (mut state, values) = GainControllerState::new(default_settings()).expect("accepted");
    assert!(values.enable_adaptive_digital);
    assert!(!values.enable_input_volume_controller);
    let plan = state.begin_process(255, 960, 960).expect("accepted");
    assert_eq!(plan.batches, 2);
    assert!(plan.capture_output_used);
    for _ in 0..plan.batches {
        state.record_recommendation(None);
    }
    let report = state.finish_process(plan.needed, 255);
    assert_eq!(report.processed_samples, 960);
    assert_eq!(report.total_processed_samples, 960);
    assert_eq!(report.applied_input_volume, 255);
    assert_eq!(report.recommended_input_volume, -1);
}

#[test]
fn agc2_refuses_invalid_settings() {
    let invalid = [
        GainControllerSettings { sample_rate_hz: 22_050, ..default_settings() },
        GainControllerSettings { channels: 9, ..default_settings() },
        GainControllerSettings { ivc_min_input_volume: 256, ..default_settings() },
        GainControllerSettings { ivc_clipped_level_min: -1, ..default_settings() },
        GainControllerSettings { ivc_clipped_level_step: 0, ..default_settings() },
        GainControllerSettings { ivc_clipped_wait_frames: -1, ..default_settings() },
        GainControllerSettings { ivc_update_input_volume_wait_frames: -1, ..default_settings() },
    ];
    for settings in invalid {
        assert_eq!(GainControllerState::new(settings).err(), Some(-2));
    }
    assert!(make_gain_configs(&GainControllerSettings { ivc_min_input_volume: 255, ..default_settings() }).is_ok());
}

#[test]
fn agc2_process_checks_in_order() {
    let (mut state, _) = GainControllerState::new(default_settings()).unwrap();
    assert_eq!(state.begin_process(256, 960, 960).err(), Some(-3));
    assert_eq!(state.begin_process(-1, 960, 960).err(), Some(-3));
    assert_eq!(state.begin_process(100, 961, 961).err(), Some(-3));
    assert_eq!(state.begin_process(100, 960, 480).err(), Some(-4));
    assert!(state.begin_process(0, 480, 480).is_ok());
}

#[test]
fn agc2_reports_the_last_recommendation() {
    let (mut state, _) = GainControllerState::new(default_settings()).unwrap();
    let plan = state.begin_process(128, 1_440, 1_440).unwrap();
    assert_eq!(plan.batches, 3);
    state.record_recommendation(Some(140));
    state.record_recommendation(Some(150));
    state.record_recommendation(None);
    assert_eq!(state.finish_process(plan.needed, 128).recommended_input_volume, 150);
    // a new call starts without a recommendation
    let plan = state.begin_process(150, 480, 480).unwrap();
    state.record_recommendation(None);
    let report = state.finish_process(plan.needed, 150);
    assert_eq!(report.recommended_input_volume, -1);
    assert_eq!(report.total_processed_samples, 1_920);
}

#[test]
fn agc2_capture_output_flag() {
    let (mut state, _) = GainControllerState::new(default_settings()).unwrap();
    state.set_capture_output_used(false);
    assert_eq!(state.settings().capture_output_used, 0);
    assert!(!state.begin_process(10, 480, 480).unwrap().capture_output_used);
    state.set_capture_output_used(true);
    assert_eq!(state.settings().capture_output_used, 1);
}

#[test]
fn agc2_samples_per_10ms() {
    let (state, _) = GainControllerState::new(default_settings()).unwrap();
    assert_eq!(state.samples_per_10ms(), 480);
    let (state, _) = GainControllerState::new(GainControllerSettings { sample_rate_hz: 32_000, channels: 2, ..default_settings() }).unwrap();
    assert_eq!(state.samples_per_10ms(), 640);
}

#[test]
fn agc2_default_settings() {
    assert_eq!(GainControllerSettings::default(), default_settings());
}
