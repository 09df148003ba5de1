use meta_aec3::{deinterleave, interleave_into};

#[test]
fn deinterleave_splits_by_channel() {
    let interleaved = [1, 10, 2, 20, 3, 30];
    let planar = deinterleave(&interleaved, 2);
    assert_eq!(planar, vec![vec![1, 2, 3], vec![10, 20, 30]]);
    let mono = deinterleave(&interleaved, 1);
    assert_eq!(mono, vec![vec![1, 10, 2, 20, 3, 30]]);
}

#[test]
fn interleave_joins_channels() {
    let planar = vec![vec![1, 2, 3], vec![10, 20, 30]];
    let mut out = [0; 6];
    interleave_into(&planar, 3, &mut out);
    assert_eq!(out, [1, 10, 2, 20, 3, 30]);
}

#[test]
fn interleave_after_deinterleave_gives_the_samples_back() {
    let samples: Vec<f32> = (0..24).map(|i| i as f32 * 0.5 - 3.0).collect();
    for channels in [1usize, 2, 3, 4, 6, 8] {
        let planar = deinterleave(&samples, channels);
        assert_eq!(planar.len(), channels);
        let mut back = vec![0.0f32; samples.len()];
        interleave_into(&planar, samples.len() / channels, &mut back);
        assert_eq!(back, samples);
    }
}

#[test]
fn deinterleave_after_interleave_gives_the_channels_back() {
    let planar = vec![vec![1u8, 2, 3, 4], vec![5, 6, 7, 8], vec![9, 10, 11, 12]];
    let mut joined = [0u8; 12];
    interleave_into(&planar, 4, &mut joined);
    assert_eq!(deinterleave(&joined, 3), planar);
}
