//! A reusable 10-ms audio frame buffer of the DSP library together with the
//! frame geometry the processors check their buffers against.

use vstd::prelude::*;
use aec3::audio_processing::audio_buffer::AudioBuffer;
use crate::channels::{deinterleave, deinterleaved, interleave_into, interleaved, rows_of_length, rows_view};
use crate::checks::{checked_frame_length, is_supported_rate, saturating_product};

verus! {

#[verifier::external_type_specification]
#[verifier::external_body]
pub struct ExAudioBuffer(AudioBuffer);

/// What `AudioBuffer::num_channels` returns: the number of active channels.
pub uninterp spec fn audio_buffer_channels(buffer: AudioBuffer) -> usize;

/// What `AudioBuffer::num_frames` returns: the samples per channel of the
/// full-band frame.
pub uninterp spec fn audio_buffer_frames(buffer: AudioBuffer) -> usize;

/// The number of channels a buffer was made with: the limit that
/// `AudioBuffer::set_num_channels` checks the active count against, and the
/// number of channels its band-splitting filter runs over.
pub uninterp spec fn audio_buffer_channel_limit(buffer: AudioBuffer) -> usize;

/// Calls `AudioBuffer::from_sample_rates`, which builds a buffer of
/// `rate / 100` frames per channel with `buffer_channels` channels, all of
/// them active. Admitted here only with equal input, buffer and output rates
/// and channel counts at a supported rate (the constructor asserts positive
/// frame and channel counts and sets up band splitting only for 16, 32 and
/// 48 kHz frames). Of the buffer only its frame and channel counts are
/// stated.
#[verifier::external_body]
fn audio_buffer_from_sample_rates(
    input_rate: usize,
    input_channels: usize,
    buffer_rate: usize,
    buffer_channels: usize,
    output_rate: usize,
) -> (buffer: AudioBuffer)
    requires
        is_supported_rate(input_rate as int),
        buffer_rate == input_rate,
        output_rate == input_rate,
        input_channels > 0,
        buffer_channels == input_channels,
    ensures
        audio_buffer_frames(buffer) == buffer_rate / 100,
        audio_buffer_channels(buffer) == buffer_channels,
        audio_buffer_channel_limit(buffer) == buffer_channels,
{
    AudioBuffer::from_sample_rates(input_rate, input_channels, buffer_rate, buffer_channels, output_rate)
}

/// Calls `AudioBuffer::num_channels`.
#[verifier::external_body]
fn audio_buffer_num_channels(buffer: &AudioBuffer) -> (n: usize)
    ensures
        n == audio_buffer_channels(*buffer),
{
    buffer.num_channels()
}

/// The buffer `AudioBuffer::split_into_frequency_bands` leaves: the filter
/// bank's analysis of the full-band samples written into the band samples.
/// It depends on the buffer alone (samples, band layout and filter state).
pub uninterp spec fn split_into_bands(buffer: AudioBuffer) -> AudioBuffer;

/// The buffer `AudioBuffer::merge_frequency_bands` leaves: the filter bank's
/// synthesis of the band samples written into the full-band samples. It
/// depends on the buffer alone.
pub uninterp spec fn merged_from_bands(buffer: AudioBuffer) -> AudioBuffer;

/// Calls `AudioBuffer::split_into_frequency_bands`, which runs the buffer's
/// band-splitting filter (32 and 48 kHz frames; nothing at 16 kHz) over
/// every channel the buffer was made with. Its channel accessors assert that
/// each such channel is active, hence the `requires`. The split writes band
/// samples and filter state only: the frame and channel counts stay. The
/// buffer it leaves is named, not described.
#[verifier::external_body]
fn audio_buffer_split_into_frequency_bands(buffer: &mut AudioBuffer)
    requires
        audio_buffer_channels(*old(buffer)) == audio_buffer_channel_limit(*old(buffer)),
    ensures
        *final(buffer) == split_into_bands(*old(buffer)),
        audio_buffer_channels(*final(buffer)) == audio_buffer_channels(*old(buffer)),
        audio_buffer_channel_limit(*final(buffer)) == audio_buffer_channel_limit(*old(buffer)),
        audio_buffer_frames(*final(buffer)) == audio_buffer_frames(*old(buffer)),
{
    buffer.split_into_frequency_bands()
}

/// Calls `AudioBuffer::merge_frequency_bands`, the synthesis counterpart of
/// the band split, under the same condition; it writes full-band samples and
/// filter state only. The buffer it leaves is named, not described.
#[verifier::external_body]
fn audio_buffer_merge_frequency_bands(buffer: &mut AudioBuffer)
    requires
        audio_buffer_channels(*old(buffer)) == audio_buffer_channel_limit(*old(buffer)),
    ensures
        *final(buffer) == merged_from_bands(*old(buffer)),
        audio_buffer_channels(*final(buffer)) == audio_buffer_channels(*old(buffer)),
        audio_buffer_channel_limit(*final(buffer)) == audio_buffer_channel_limit(*old(buffer)),
        audio_buffer_frames(*final(buffer)) == audio_buffer_frames(*old(buffer)),
{
    buffer.merge_frequency_bands()
}

/// One 10-ms frame of `channels` channels held in the DSP library's buffer.
pub struct AudioFrameIo {
    channels: usize,
    frames: usize,
    buffer: AudioBuffer,
}

impl AudioFrameIo {
    /// The number of channels of a frame.
    pub closed spec fn channel_count(&self) -> nat {
        self.channels as nat
    }

    /// The number of samples per channel of a frame.
    pub closed spec fn frame_count(&self) -> nat {
        self.frames as nat
    }

    /// The DSP buffer holding the frame.
    pub closed spec fn buffer_of(&self) -> AudioBuffer {
        self.buffer
    }

    /// The same frame geometry holding `buffer`.
    pub closed spec fn with_buffer(self, buffer: AudioBuffer) -> AudioFrameIo {
        AudioFrameIo { buffer, ..self }
    }

    /// Replacing the buffer keeps the geometry.
    pub proof fn lemma_with_buffer(self, buffer: AudioBuffer)
        ensures
            self.with_buffer(buffer).buffer_of() == buffer,
            self.with_buffer(buffer).channel_count() == self.channel_count(),
            self.with_buffer(buffer).frame_count() == self.frame_count(),
    {
    }

    /// Frames of a supported rate with 1 to 8 channels.
    pub open spec fn wf(&self) -> bool {
        &&& 1 <= self.channel_count() <= 8
        &&& (self.frame_count() == 160 || self.frame_count() == 320 || self.frame_count() == 480)
    }

    /// The DSP buffer is one made for the frame's channels (it has not been
    /// swapped for a buffer made with another channel count).
    pub open spec fn keeps_channel_limit(&self) -> bool {
        audio_buffer_channel_limit(self.buffer_of()) == self.channel_count()
    }

    /// The DSP buffer has the frame's geometry with every channel active.
    pub open spec fn buffer_matches(&self) -> bool {
        &&& self.keeps_channel_limit()
        &&& audio_buffer_channels(self.buffer_of()) == self.channel_count()
        &&& audio_buffer_frames(self.buffer_of()) == self.frame_count()
    }

    /// A frame buffer for 10 ms of `channels` channels at `sample_rate_hz`.
    pub fn new(sample_rate_hz: usize, channels: usize) -> (io: Self)
        requires
            is_supported_rate(sample_rate_hz as int),
            1 <= channels <= 8,
        ensures
            io.channel_count() == channels,
            io.frame_count() == sample_rate_hz / 100,
            io.wf(),
            io.buffer_matches(),
    {
        let frames = sample_rate_hz / 100;
        AudioFrameIo {
            channels,
            frames,
            buffer: audio_buffer_from_sample_rates(
                sample_rate_hz,
                channels,
                sample_rate_hz,
                channels,
                sample_rate_hz,
            ),
        }
    }

    /// A frame holds at most 480 samples on each of at most 8 channels.
    proof fn lemma_frame_len_bound(&self)
        requires
            self.wf(),
        ensures
            self.frames * self.channels <= 480 * 8,
    {
        assert(self.frames * self.channels <= 480 * 8) by (nonlinear_arith)
            requires
                self.frames <= 480,
                self.channels <= 8,
        ;
    }

    /// Samples per channel of a frame.
    pub fn frames(&self) -> (n: usize)
        ensures
            n == self.frame_count(),
    {
        self.frames
    }

    /// Channels of a frame.
    pub fn channels(&self) -> (n: usize)
        ensures
            n == self.channel_count(),
    {
        self.channels
    }

    /// Interleaved samples of a frame, all channels together.
    pub fn samples_per_frame(&self) -> (n: usize)
        requires
            self.wf(),
        ensures
            n == self.frame_count() * self.channel_count(),
    {
        proof {
            self.lemma_frame_len_bound();
        }
        self.frames * self.channels
    }

    /// Checks that an interleaved buffer holds exactly one frame.
    pub fn check_frame(&self, samples_len: usize) -> (r: Result<(), i32>)
        ensures
            r is Ok <==> samples_len == saturating_product(self.frame_count() as int, self.channel_count() as int),
            r matches Err(e) ==> e == crate::status::META_AEC3_INVALID_ARGUMENT,
    {
        checked_frame_length(samples_len, self.channels, self.frames)
    }

    /// Splits one interleaved frame into one buffer per channel, to be
    /// loaded into the DSP buffer; a buffer that is not exactly one frame is
    /// refused.
    pub fn split_frame<T: Copy>(&self, interleaved_frame: &[T]) -> (r: Result<Vec<Vec<T>>, i32>)
        requires
            self.wf(),
        ensures
            r is Ok <==> interleaved_frame@.len() == self.frame_count() * self.channel_count(),
            r matches Ok(planar) ==> rows_view(planar@) == deinterleaved(interleaved_frame@, self.channel_count()),
            r matches Ok(planar) ==> rows_of_length(rows_view(planar@), self.frame_count()),
            r matches Err(e) ==> e == crate::status::META_AEC3_INVALID_ARGUMENT,
    {
        self.check_frame(interleaved_frame.len())?;
        proof {
            self.lemma_frame_len_bound();
            vstd::arithmetic::mul::lemma_mul_is_commutative(self.frames as int, self.channels as int);
            vstd::arithmetic::div_mod::lemma_div_multiples_vanish(self.frames as int, self.channels as int);
            vstd::arithmetic::div_mod::lemma_mod_multiples_basic(self.frames as int, self.channels as int);
        }
        Ok(deinterleave(interleaved_frame, self.channels))
    }

    /// Writes one frame, given as one buffer per channel, into an
    /// interleaved buffer; a buffer that is not exactly one frame is refused
    /// and left as it was.
    pub fn merge_frame<T: Copy>(&self, planar: &Vec<Vec<T>>, interleaved_frame: &mut [T]) -> (r: Result<(), i32>)
        requires
            self.wf(),
            planar@.len() == self.channel_count(),
            rows_of_length(rows_view(planar@), self.frame_count()),
        ensures
            r is Ok <==> old(interleaved_frame)@.len() == self.frame_count() * self.channel_count(),
            r is Ok ==> final(interleaved_frame)@ == interleaved(rows_view(planar@), self.frame_count()),
            r is Err ==> final(interleaved_frame)@ == old(interleaved_frame)@,
            r matches Err(e) ==> e == crate::status::META_AEC3_INVALID_ARGUMENT,
    {
        self.check_frame(interleaved_frame.len())?;
        proof {
            self.lemma_frame_len_bound();
            vstd::arithmetic::mul::lemma_mul_is_commutative(self.frames as int, self.channels as int);
        }
        interleave_into(planar, self.frames, interleaved_frame);
        Ok(())
    }

    /// Splits the frame into frequency bands for the processors. A buffer
    /// whose active channel count is no longer the frame's is left as it is
    /// (`false`).
    pub fn split_bands(&mut self) -> (done: bool)
        requires
            old(self).keeps_channel_limit(),
        ensures
            done == (audio_buffer_channels(old(self).buffer_of()) == old(self).channel_count()),
            done ==> *final(self) == old(self).with_buffer(split_into_bands(old(self).buffer_of())),
            !done ==> *final(self) == *old(self),
            final(self).keeps_channel_limit(),
            old(self).buffer_matches() ==> final(self).buffer_matches(),
            final(self).channel_count() == old(self).channel_count(),
            final(self).frame_count() == old(self).frame_count(),
    {
        if audio_buffer_num_channels(&self.buffer) != self.channels {
            return false;
        }
        audio_buffer_split_into_frequency_bands(&mut self.buffer);
        true
    }

    /// Merges the processed frequency bands back into the frame. A buffer
    /// whose active channel count is no longer the frame's is left as it is
    /// (`false`).
    pub fn merge_bands(&mut self) -> (done: bool)
        requires
            old(self).keeps_channel_limit(),
        ensures
            done == (audio_buffer_channels(old(self).buffer_of()) == old(self).channel_count()),
            done ==> *final(self) == old(self).with_buffer(merged_from_bands(old(self).buffer_of())),
            !done ==> *final(self) == *old(self),
            final(self).keeps_channel_limit(),
            old(self).buffer_matches() ==> final(self).buffer_matches(),
            final(self).channel_count() == old(self).channel_count(),
            final(self).frame_count() == old(self).frame_count(),
    {
        if audio_buffer_num_channels(&self.buffer) != self.channels {
            return false;
        }
        audio_buffer_merge_frequency_bands(&mut self.buffer);
        true
    }

    /// The DSP buffer.
    pub fn buffer(&self) -> (buffer: &AudioBuffer)
        ensures
            *buffer == self.buffer_of(),
    {
        &self.buffer
    }

    /// The DSP buffer, to load samples into or process; the frame geometry
    /// stays as it is.
    pub fn buffer_mut(&mut self) -> (buffer: &mut AudioBuffer)
        ensures
            *buffer == old(self).buffer_of(),
            *final(self) == old(self).with_buffer(*final(buffer)),
            final(self).channel_count() == old(self).channel_count(),
            final(self).frame_count() == old(self).frame_count(),
    {
        &mut self.buffer
    }
}

} // verus!
