//! Argument checks shared by the processors: pointers, buffer lengths,
//! stream formats and integer conversions.

use vstd::prelude::*;
use crate::status::{META_AEC3_INVALID_ARGUMENT, META_AEC3_INVALID_CONFIG, META_AEC3_NULL_POINTER};

verus! {

/// The largest value of an `i32`, as a mathematical integer.
pub open spec fn i32_max() -> int {
    0x7fff_ffff
}

/// `a * b`, or `usize::MAX` where the product does not fit.
pub open spec fn saturating_product(a: int, b: int) -> int {
    if a * b <= usize::MAX { a * b } else { usize::MAX as int }
}

/// `a + b`, or `u64::MAX` where the sum does not fit.
pub open spec fn saturating_total(a: u64, b: u64) -> u64 {
    if a + b <= u64::MAX { (a + b) as u64 } else { u64::MAX }
}

/// The supported stream sample rates.
pub open spec fn is_supported_rate(sample_rate_hz: int) -> bool {
    sample_rate_hz == 16_000 || sample_rate_hz == 32_000 || sample_rate_hz == 48_000
}

/// The supported rates are exactly 16, 32 and 48 kHz.
pub proof fn lemma_supported_rates(sample_rate_hz: int)
    ensures
        is_supported_rate(sample_rate_hz) <==> (
            sample_rate_hz == 16_000 || sample_rate_hz == 32_000 || sample_rate_hz == 48_000
        ),
{
}

/// `a * b`, saturating at `usize::MAX`.
pub fn saturating_mul(a: usize, b: usize) -> (r: usize)
    ensures
        r == saturating_product(a as int, b as int),
{
    match a.checked_mul(b) {
        Some(p) => p,
        None => usize::MAX,
    }
}

/// Whether `address` is a multiple of `alignment`.
pub fn is_aligned(address: usize, alignment: usize) -> (aligned: bool)
    requires
        alignment > 0,
    ensures
        aligned == (address % alignment == 0),
{
    address % alignment == 0
}

/// Checks a pointer to a single record: it must be non-null (`address != 0`)
/// and aligned.
pub fn checked_pointer(address: usize, alignment: usize) -> (r: Result<(), i32>)
    requires
        alignment > 0,
    ensures
        r is Ok <==> (address != 0 && address % alignment == 0),
        r matches Err(e) ==> e == META_AEC3_NULL_POINTER,
{
    if address == 0 || !is_aligned(address, alignment) {
        return Err(META_AEC3_NULL_POINTER);
    }
    Ok(())
}

/// Checks an optional pointer to a statistics record: a null address means
/// "no record" (`Ok(false)`); otherwise it must be aligned (`Ok(true)`).
pub fn optional_stats(address: usize, alignment: usize) -> (r: Result<bool, i32>)
    requires
        alignment > 0,
    ensures
        address == 0 ==> r == Ok::<bool, i32>(false),
        address != 0 ==> (r is Ok <==> address % alignment == 0),
        address != 0 ==> (r matches Ok(present) ==> present),
        r matches Err(e) ==> e == META_AEC3_NULL_POINTER,
{
    if address == 0 {
        Ok(false)
    } else {
        checked_pointer(address, alignment)?;
        Ok(true)
    }
}

/// Checks a pointer to `length` samples and gives the number of samples: a
/// null or misaligned pointer gives `META_AEC3_NULL_POINTER`; otherwise a
/// negative length gives `META_AEC3_INVALID_ARGUMENT`.
pub fn checked_slice(address: usize, alignment: usize, length: i32) -> (r: Result<usize, i32>)
    requires
        alignment > 0,
    ensures
        r is Ok <==> (address != 0 && address % alignment == 0 && length >= 0),
        r matches Ok(n) ==> n == length,
        (address == 0 || address % alignment != 0) ==> r == Err::<usize, i32>(META_AEC3_NULL_POINTER),
        (address != 0 && address % alignment == 0 && length < 0) ==> r == Err::<usize, i32>(META_AEC3_INVALID_ARGUMENT),
{
    if address == 0 || !is_aligned(address, alignment) {
        return Err(META_AEC3_NULL_POINTER);
    }
    if length < 0 {
        return Err(META_AEC3_INVALID_ARGUMENT);
    }
    Ok(length as usize)
}

/// Checks an optional output buffer of `length` samples that must hold at
/// least `required`, compared as an `i32` (a `required` beyond `i32::MAX`
/// wraps, as in the C interface's arithmetic): a null address means "no
/// output" (`Ok(None)`); otherwise the number of samples it holds. A
/// misaligned buffer, one that is too short, and a negative length are
/// refused.
pub fn optional_output(address: usize, alignment: usize, length: i32, required: usize) -> (r: Result<Option<usize>, i32>)
    requires
        alignment > 0,
    ensures
        address == 0 ==> r == Ok::<Option<usize>, i32>(None),
        address != 0 ==> (r is Ok <==> (length >= (required as i32) && length >= 0 && address % alignment == 0)),
        address != 0 ==> (r matches Ok(o) ==> o == Some(length as usize)),
        r matches Err(e) ==> e == META_AEC3_INVALID_ARGUMENT,
{
    if address == 0 {
        return Ok(None);
    }
    let required_i32: i32 = #[verifier::truncate] (required as i32);
    if length < required_i32 || length < 0 || !is_aligned(address, alignment) {
        return Err(META_AEC3_INVALID_ARGUMENT);
    }
    Ok(Some(length as usize))
}

/// Accepts the supported stream rates (16, 32 and 48 kHz).
pub fn valid_sample_rate(sample_rate_hz: i32) -> (r: Result<usize, i32>)
    ensures
        r is Ok <==> is_supported_rate(sample_rate_hz as int),
        r matches Ok(rate) ==> rate == sample_rate_hz,
        r matches Err(e) ==> e == META_AEC3_INVALID_CONFIG,
{
    match sample_rate_hz {
        16_000 | 32_000 | 48_000 => Ok(sample_rate_hz as usize),
        _ => Err(META_AEC3_INVALID_CONFIG),
    }
}

/// Accepts a channel count from 1 to `maximum`.
pub fn valid_channels(channels: i32, maximum: usize) -> (r: Result<usize, i32>)
    ensures
        r is Ok <==> (1 <= channels && channels <= maximum),
        r matches Ok(n) ==> n == channels,
        r matches Err(e) ==> e == META_AEC3_INVALID_CONFIG,
{
    if channels >= 1 && (channels as usize) <= maximum {
        Ok(channels as usize)
    } else {
        Err(META_AEC3_INVALID_CONFIG)
    }
}

/// Checks that a buffer of `samples_len` samples holds exactly one frame of
/// `frames` samples on each of `channels` channels.
pub fn checked_frame_length(samples_len: usize, channels: usize, frames: usize) -> (r: Result<(), i32>)
    ensures
        r is Ok <==> samples_len == saturating_product(frames as int, channels as int),
        r matches Err(e) ==> e == META_AEC3_INVALID_ARGUMENT,
{
    if samples_len == saturating_mul(frames, channels) {
        Ok(())
    } else {
        Err(META_AEC3_INVALID_ARGUMENT)
    }
}

/// Counts the whole frames (of `frames` samples on each of `channels`
/// channels) in a buffer of `samples_len` samples; a buffer that is empty or
/// ends in a partial frame is refused.
pub fn checked_frame_batch_length(samples_len: usize, channels: usize, frames: usize) -> (r: Result<usize, i32>)
    ensures
        r is Ok <==> ({
            let per_frame = saturating_product(channels as int, frames as int);
            per_frame != 0 && samples_len != 0 && (samples_len as int) % per_frame == 0
        }),
        r matches Ok(batches) ==> batches == (samples_len as int) / saturating_product(channels as int, frames as int),
        r matches Ok(batches) ==> batches >= 1,
        r matches Ok(batches) ==> batches * saturating_product(channels as int, frames as int) == samples_len,
        r matches Err(e) ==> e == META_AEC3_INVALID_ARGUMENT,
{
    let samples_per_frame = saturating_mul(channels, frames);
    if samples_per_frame == 0 || samples_len == 0 || samples_len % samples_per_frame != 0 {
        return Err(META_AEC3_INVALID_ARGUMENT);
    }
    let batches = samples_len / samples_per_frame;
    proof {
        let spf = samples_per_frame as int;
        vstd::arithmetic::div_mod::lemma_fundamental_div_mod(samples_len as int, spf);
        vstd::arithmetic::mul::lemma_mul_is_commutative(spf, batches as int);
        if batches == 0 {
            assert(batches * spf == 0) by (nonlinear_arith)
                requires batches == 0;
        }
    }
    Ok(batches)
}

/// The C interface's booleans: any nonzero value is true.
pub fn bool_from_ffi(value: i32) -> (b: bool)
    ensures
        b == (value != 0),
{
    value != 0
}

/// Converts a count to an `i32`, saturating at `i32::MAX`.
pub fn i32_from_usize(value: usize) -> (r: i32)
    ensures
        r == (if value <= i32_max() { value as int } else { i32_max() }),
{
    if value <= i32::MAX as usize {
        value as i32
    } else {
        i32::MAX
    }
}

/// Converts a configured count, refusing a negative one.
pub fn non_negative(value: i32) -> (r: Result<usize, i32>)
    ensures
        r is Ok <==> value >= 0,
        r matches Ok(n) ==> n == value,
        r matches Err(e) ==> e == META_AEC3_INVALID_CONFIG,
{
    if value < 0 {
        Err(META_AEC3_INVALID_CONFIG)
    } else {
        Ok(value as usize)
    }
}

/// Adds processed samples to a running total, saturating at `u64::MAX`.
pub fn add_to_total(total: u64, samples: usize) -> (r: u64)
    ensures
        r == saturating_total(total, samples as u64),
{
    total.saturating_add(samples as u64)
}

/// The frames of an accepted call tile its buffer: frame `index` of
/// `per_frame` samples starts at `index * per_frame` and ends within the
/// `batches * per_frame` samples of the call.
pub proof fn lemma_frames_tile_buffer(batches: nat, per_frame: nat, index: nat)
    requires
        index < batches,
    ensures
        index * per_frame + per_frame <= batches * per_frame,
        (index + 1) * per_frame == index * per_frame + per_frame,
{
    assert(index * per_frame + per_frame <= batches * per_frame) by (nonlinear_arith)
        requires
            index < batches,
    ;
    assert((index + 1) * per_frame == index * per_frame + per_frame) by (nonlinear_arith);
}

/// A running total never decreases; until it saturates it grows by exactly
/// the samples added.
pub proof fn lemma_total_grows(total: u64, samples: u64)
    ensures
        saturating_total(total, samples) >= total,
        total + samples <= u64::MAX ==> saturating_total(total, samples) == total + samples,
        total + samples > u64::MAX ==> saturating_total(total, samples) == u64::MAX,
{
}

} // verus!
