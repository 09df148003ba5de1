use meta_aec3::{AudioFrameIo, HighPassHandle, MetaAec3HighPassConfig};

fn load_tone(io: &mut AudioFrameIo) {
    for (i, sample) in io.buffer_mut().channel_mut(0).iter_mut().enumerate() {
        *sample = 1000.0 * ((i as f32) * 0.3).sin();
    }
}

#[test]
fn split_bands_fills_the_band_samples() {
    let mut io = AudioFrameIo::new(48_000, 1);
    load_tone(&mut io);
    assert!(io.buffer().split_band(0, 0).iter().all(|&s| s == 0.0));
    assert!(io.split_bands());
    assert!(io.buffer().split_band(0, 0).iter().any(|&s| s != 0.0));
    assert_eq!(io.frames(), 480);
    assert_eq!(io.channels(), 1);
}

#[test]
fn merge_bands_rebuilds_the_full_band() {
    let mut io = AudioFrameIo::new(32_000, 1);
    load_tone(&mut io);
    assert!(io.split_bands());
    for sample in io.buffer_mut().channel_mut(0).iter_mut() {
        *sample = 0.0;
    }
    assert!(io.merge_bands());
    assert!(io.buffer().channel(0).iter().any(|&s| s != 0.0));
}

#[test]
fn bands_are_left_alone_when_channels_were_deactivated() {
    let mut io = AudioFrameIo::new(48_000, 2);
    load_tone(&mut io);
    io.buffer_mut().set_num_channels(1);
    assert!(!io.split_bands());
    assert!(io.buffer().split_band(0, 0).iter().all(|&s| s == 0.0));
    assert!(!io.merge_bands());
    io.buffer_mut().set_num_channels(2);
    assert!(io.split_bands());
    assert!(io.merge_bands());
}

#[test]
fn new_frame_buffer_has_the_frame_geometry() {
    for &(rate, channels) in &[(16_000usize, 1usize), (32_000, 2), (48_000, 8)] {
        let io = AudioFrameIo::new(rate, channels);
        assert_eq!(io.buffer().num_frames(), rate / 100);
        assert_eq!(io.buffer().num_channels(), channels);
        assert_eq!(io.frames(), rate / 100);
        assert_eq!(io.channels(), channels);
    }
}

#[test]
fn high_pass_reset_clears_the_filter_state() {
    let config = MetaAec3HighPassConfig::default();
    let mut fresh = HighPassHandle::new(config).unwrap();
    let mut used = HighPassHandle::new(config).unwrap();

    let mut warmup = vec![0.5f32; 480];
    let mut planar = used.begin_process(&warmup).unwrap();
    used.filter_mut().process(&mut planar);
    used.finish_process(&planar, &mut warmup);
    used.reset();

    let mut a = vec![0.25f32; 480];
    let mut b = a.clone();
    let mut pa = fresh.begin_process(&a).unwrap();
    fresh.filter_mut().process(&mut pa);
    fresh.finish_process(&pa, &mut a);
    let mut pb = used.begin_process(&b).unwrap();
    used.filter_mut().process(&mut pb);
    used.finish_process(&pb, &mut b);
    assert_eq!(a, b);
}
