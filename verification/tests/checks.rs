use meta_aec3::{
    bool_from_ffi, checked_frame_batch_length, checked_frame_length, checked_pointer, checked_slice,
    ffi_create, ffi_status, i32_from_usize, is_aligned, non_negative, optional_output,
    optional_stats, query_status, valid_channels, valid_sample_rate, META_AEC3_INVALID_ARGUMENT,
    META_AEC3_INVALID_CONFIG, META_AEC3_NULL_POINTER, META_AEC3_OK, META_AEC3_PANIC,
};

#[test]
fn status_codes_have_their_values() {
    assert_eq!(META_AEC3_OK, 0);
    assert_eq!(META_AEC3_NULL_POINTER, -1);
    assert_eq!(META_AEC3_INVALID_CONFIG, -2);
    assert_eq!(META_AEC3_INVALID_ARGUMENT, -3);
    assert_eq!(meta_aec3::META_AEC3_BUFFER_TOO_SMALL, -4);
    assert_eq!(META_AEC3_PANIC, -99);
}

#[test]
fn ffi_status_reports_outcomes() {
    assert_eq!(ffi_status(Some(Ok(META_AEC3_OK))), 0);
    assert_eq!(ffi_status(Some(Ok(7))), 7);
    assert_eq!(ffi_status(Some(Err(META_AEC3_INVALID_ARGUMENT))), -3);
    assert_eq!(ffi_status(None), -99);
}

#[test]
fn ffi_create_keeps_only_successes() {
    assert_eq!(ffi_create(Some(Ok::<u8, i32>(5))), Some(5));
    assert_eq!(ffi_create(Some(Err::<u8, i32>(-2))), None);
    assert_eq!(ffi_create::<u8>(None), None);
}

#[test]
fn query_status_passes_values_and_errors() {
    assert_eq!(query_status(Ok(480)), 480);
    assert_eq!(query_status(Err(-1)), -1);
}

#[test]
fn alignment_is_a_multiple() {
    assert!(is_aligned(8, 4));
    assert!(is_aligned(0, 4));
    assert!(!is_aligned(6, 4));
    assert!(is_aligned(7, 1));
}

#[test]
fn pointer_checks_refuse_null_and_misaligned() {
    assert_eq!(checked_pointer(0, 4), Err(-1));
    assert_eq!(checked_pointer(6, 4), Err(-1));
    assert_eq!(checked_pointer(8, 4), Ok(()));
    assert_eq!(checked_slice(0, 4, 3), Err(-1));
    assert_eq!(checked_slice(8, 4, -1), Err(META_AEC3_INVALID_ARGUMENT));
    assert_eq!(checked_slice(0, 4, -1), Err(META_AEC3_NULL_POINTER));
    assert_eq!(checked_slice(10, 4, -1), Err(META_AEC3_NULL_POINTER));
    assert_eq!(checked_slice(10, 4, 3), Err(-1));
    assert_eq!(checked_slice(8, 4, 0), Ok(0));
    assert_eq!(checked_slice(8, 4, 960), Ok(960));
}

#[test]
fn optional_buffers_may_be_absent() {
    assert_eq!(optional_output(0, 4, -5, 0), Ok(None));
    assert_eq!(optional_output(8, 4, 320, 0), Ok(Some(320)));
    assert_eq!(optional_output(8, 4, -1, 0), Err(-3));
    assert_eq!(optional_output(8, 4, 3, 5), Err(-3));
    assert_eq!(optional_output(6, 4, 3, 0), Err(-3));
    // a requirement beyond i32::MAX is compared as the C interface's i32
    assert_eq!(optional_output(8, 4, 5, (1usize << 32) + 5), Ok(Some(5)));
    assert_eq!(optional_output(8, 4, 4, (1usize << 32) + 5), Err(-3));
    assert_eq!(optional_output(8, 4, -1, (1usize << 32) - 1), Err(-3));
    assert_eq!(optional_stats(0, 8), Ok(false));
    assert_eq!(optional_stats(16, 8), Ok(true));
    assert_eq!(optional_stats(12, 8), Err(-1));
}

#[test]
fn sample_rates_and_channels() {
    assert_eq!(valid_sample_rate(16_000), Ok(16_000));
    assert_eq!(valid_sample_rate(32_000), Ok(32_000));
    assert_eq!(valid_sample_rate(48_000), Ok(48_000));
    assert_eq!(valid_sample_rate(44_100), Err(-2));
    assert_eq!(valid_sample_rate(-48_000), Err(-2));
    assert_eq!(valid_channels(0, 8), Err(-2));
    assert_eq!(valid_channels(-1, 8), Err(-2));
    assert_eq!(valid_channels(1, 8), Ok(1));
    assert_eq!(valid_channels(8, 8), Ok(8));
    assert_eq!(valid_channels(9, 8), Err(-2));
    assert_eq!(valid_channels(2, 2), Ok(2));
    assert_eq!(valid_channels(3, 2), Err(-2));
}

#[test]
fn frame_lengths() {
    assert_eq!(checked_frame_length(480, 1, 480), Ok(()));
    assert_eq!(checked_frame_length(960, 2, 480), Ok(()));
    assert_eq!(checked_frame_length(959, 2, 480), Err(-3));
    // the product saturates
    assert_eq!(checked_frame_length(usize::MAX, 2, usize::MAX), Ok(()));
}

#[test]
fn frame_batches() {
    assert_eq!(checked_frame_batch_length(960, 1, 480), Ok(2));
    assert_eq!(checked_frame_batch_length(480 * 8 * 2, 8, 480), Ok(2));
    assert_eq!(checked_frame_batch_length(480, 1, 480), Ok(1));
    assert_eq!(checked_frame_batch_length(0, 1, 480), Err(-3));
    assert_eq!(checked_frame_batch_length(961, 1, 480), Err(-3));
    assert_eq!(checked_frame_batch_length(480, 0, 480), Err(-3));
    assert_eq!(checked_frame_batch_length(usize::MAX, usize::MAX, 2), Ok(1));
}

#[test]
fn integer_conversions() {
    assert!(bool_from_ffi(1));
    assert!(bool_from_ffi(-7));
    assert!(!bool_from_ffi(0));
    assert_eq!(i32_from_usize(0), 0);
    assert_eq!(i32_from_usize(1_920), 1_920);
    assert_eq!(i32_from_usize(i32::MAX as usize), i32::MAX);
    assert_eq!(i32_from_usize(i32::MAX as usize + 1), i32::MAX);
    assert_eq!(i32_from_usize(usize::MAX), i32::MAX);
    assert_eq!(non_negative(-1), Err(-2));
    assert_eq!(non_negative(0), Ok(0));
    assert_eq!(non_negative(250), Ok(250));
}
