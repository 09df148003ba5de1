use meta_aec3::{HighPassHandle, MetaAec3HighPassConfig};

fn mono_48k() -> MetaAec3HighPassConfig {
    MetaAec3HighPassConfig::default()
}

fn run(handle: &mut HighPassHandle, audio: &mut [f32]) -> Result<meta_aec3::HighPassReport, i32> {
    let mut planar = handle.begin_process(audio)?;
    handle.filter_mut().process(&mut planar);
    Ok(handle.finish_process(&planar, audio))
}

#[test]
fn high_pass_handle_processes_in_place() {
    let mut handle = HighPassHandle::new(MetaAec3HighPassConfig::default()).expect("default config");
    // 40 ms of 48-kHz mono audio.
    let mut audio = vec![0.25f32; 1_920];
    let report = run(&mut handle, &mut audio).expect("processed");
    assert_eq!(report.processed_samples, 1_920);
    let peak = audio.iter().fold(0.0f32, |p, s| p.max(s.abs()));
    assert!(peak.is_finite());
    assert_eq!(report.total_processed_samples, 1_920);
    assert_eq!(report.sample_rate_hz, 48_000);
    assert_eq!(report.channels, 1);
}

#[test]
fn high_pass_default_config_is_48k_mono() {
    let config = mono_48k();
    assert_eq!(config.sample_rate_hz, 48_000);
    assert_eq!(config.channels, 1);
}

#[test]
fn high_pass_refuses_unsupported_configs() {
    let bad_rate = MetaAec3HighPassConfig { sample_rate_hz: 44_100, channels: 1 };
    assert_eq!(HighPassHandle::new(bad_rate).err(), Some(-2));
    let no_channels = MetaAec3HighPassConfig { sample_rate_hz: 16_000, channels: 0 };
    assert_eq!(HighPassHandle::new(no_channels).err(), Some(-2));
    let nine = MetaAec3HighPassConfig { sample_rate_hz: 32_000, channels: 9 };
    assert_eq!(HighPassHandle::new(nine).err(), Some(-2));
    let eight = MetaAec3HighPassConfig { sample_rate_hz: 32_000, channels: 8 };
    assert!(HighPassHandle::new(eight).is_ok());
}

#[test]
fn high_pass_refuses_partial_frames() {
    let stereo = MetaAec3HighPassConfig { sample_rate_hz: 16_000, channels: 2 };
    let handle = HighPassHandle::new(stereo).unwrap();
    assert_eq!(handle.begin_process::<f32>(&[]).err(), Some(-3));
    assert_eq!(handle.begin_process(&[0.0f32; 3]).err(), Some(-3));
    assert!(handle.begin_process(&[0.0f32; 4]).is_ok());
}

#[test]
fn high_pass_counts_samples_across_calls() {
    let stereo = MetaAec3HighPassConfig { sample_rate_hz: 16_000, channels: 2 };
    let mut handle = HighPassHandle::new(stereo).unwrap();
    let mut audio = vec![0.0f32; 10];
    assert_eq!(run(&mut handle, &mut audio).unwrap().total_processed_samples, 10);
    let mut audio = vec![0.5f32; 6];
    let report = run(&mut handle, &mut audio).unwrap();
    assert_eq!(report.processed_samples, 6);
    assert_eq!(report.total_processed_samples, 16);
    // resetting the filter keeps the configuration and the counter
    handle.reset();
    assert_eq!(handle.config().channels, 2);
    let mut audio = vec![0.5f32; 2];
    assert_eq!(run(&mut handle, &mut audio).unwrap().total_processed_samples, 18);
}

#[test]
fn high_pass_reconfigure_replaces_the_configuration() {
    let mut handle = HighPassHandle::new(mono_48k()).unwrap();
    let mut audio = vec![0.1f32; 480];
    run(&mut handle, &mut audio).unwrap();
    let stereo = MetaAec3HighPassConfig { sample_rate_hz: 32_000, channels: 2 };
    assert_eq!(handle.reconfigure(stereo), Ok(()));
    assert_eq!(handle.config().sample_rate_hz, 32_000);
    assert_eq!(handle.config().channels, 2);
    assert_eq!(handle.samples_per_10ms(), 640);
    let mut audio = vec![0.1f32; 4];
    assert_eq!(run(&mut handle, &mut audio).unwrap().total_processed_samples, 4);
    // a refused configuration leaves the handle as it was
    let bad = MetaAec3HighPassConfig { sample_rate_hz: 8_000, channels: 1 };
    assert_eq!(handle.reconfigure(bad), Err(-2));
    assert_eq!(handle.config().sample_rate_hz, 32_000);
    assert_eq!(handle.samples_per_10ms(), 640);
}

#[test]
fn high_pass_samples_per_10ms() {
    assert_eq!(HighPassHandle::new(mono_48k()).unwrap().samples_per_10ms(), 480);
    let config = MetaAec3HighPassConfig { sample_rate_hz: 16_000, channels: 8 };
    assert_eq!(HighPassHandle::new(config).unwrap().samples_per_10ms(), 1_280);
}

#[test]
fn high_pass_filter_removes_dc() {
    let mut handle = HighPassHandle::new(mono_48k()).unwrap();
    let mut last = 1.0f32;
    for _ in 0..50 {
        let mut audio = vec![0.25f32; 480];
        run(&mut handle, &mut audio).unwrap();
        last = audio[479];
    }
    assert!(last.abs() < 0.05, "constant input decays, got {last}");
}

#[test]
fn high_pass_reconfigure_starts_a_fresh_filter() {
    let stereo_16k = MetaAec3HighPassConfig { sample_rate_hz: 16_000, channels: 2 };
    let mut used = HighPassHandle::new(mono_48k()).unwrap();
    let mut warmup = vec![0.75f32; 480];
    run(&mut used, &mut warmup).unwrap();
    used.reconfigure(stereo_16k).unwrap();

    let mut fresh = HighPassHandle::new(stereo_16k).unwrap();
    let mut a: Vec<f32> = (0..320).map(|i| ((i as f32) * 0.05).sin()).collect();
    let mut b = a.clone();
    run(&mut used, &mut a).unwrap();
    run(&mut fresh, &mut b).unwrap();
    assert_eq!(a, b);
}
