//! The high-pass filter processor: configuration, in-place processing of
//! interleaved audio around the DSP filter, and its sample counter.

use vstd::prelude::*;
use aec3::audio_processing::high_pass_filter::HighPassFilter;
use crate::channels::{deinterleave, deinterleaved, interleave_into, interleaved, rows_of_length, rows_view};
use crate::checks::{add_to_total, i32_from_usize, i32_max, is_supported_rate, saturating_total, valid_channels, valid_sample_rate};
use crate::status::{META_AEC3_INVALID_ARGUMENT, META_AEC3_INVALID_CONFIG};

verus! {

#[verifier::external_type_specification]
#[verifier::external_body]
pub struct ExHighPassFilter(HighPassFilter);

/// The filter `HighPassFilter::new` builds: one biquad stage per channel
/// with the coefficients of the rate and a cleared state. It depends on the
/// rate and the channel count alone.
pub uninterp spec fn new_high_pass_filter(sample_rate_hz: i32, num_channels: usize) -> HighPassFilter;

/// Calls `HighPassFilter::new`, which sets up one filter per channel and
/// panics on a rate other than 16, 32 or 48 kHz (hence the `requires`). The
/// filter it builds is named, not described.
#[verifier::external_body]
fn high_pass_filter_new(sample_rate_hz: i32, num_channels: usize) -> (filter: HighPassFilter)
    requires
        is_supported_rate(sample_rate_hz as int),
    ensures
        filter == new_high_pass_filter(sample_rate_hz, num_channels),
{
    HighPassFilter::new(sample_rate_hz, num_channels)
}

/// The filter `HighPassFilter::reset` leaves: each channel's filter state
/// cleared, coefficients and channel count kept. It depends on the filter
/// alone.
pub uninterp spec fn filter_after_reset(filter: HighPassFilter) -> HighPassFilter;

/// Calls `HighPassFilter::reset`, which clears each channel's filter state.
/// The filter it leaves is named, not described.
#[verifier::external_body]
fn high_pass_filter_reset(filter: &mut HighPassFilter)
    ensures
        *final(filter) == filter_after_reset(*old(filter)),
{
    filter.reset()
}

/// Creation options for a high-pass filter.
///
/// The filter supports 16, 32 and 48 kHz and 1 to 8 channels; audio passed
/// to it may hold any positive number of frames.
#[derive(Clone, Copy, Debug, PartialEq, Eq)]
pub struct MetaAec3HighPassConfig {
    pub sample_rate_hz: i32,
    pub channels: i32,
}

impl Default for MetaAec3HighPassConfig {
    /// 48 kHz mono.
    fn default() -> (config: Self)
        ensures
            config.sample_rate_hz == 48_000,
            config.channels == 1,
    {
        MetaAec3HighPassConfig { sample_rate_hz: 48_000, channels: 1 }
    }
}

/// Whether a high-pass configuration is accepted: a supported rate and 1 to
/// 8 channels.
pub open spec fn high_pass_config_valid(config: MetaAec3HighPassConfig) -> bool {
    is_supported_rate(config.sample_rate_hz as int) && 1 <= config.channels <= 8
}

/// The accepted high-pass configurations: 16, 32 or 48 kHz and, at any of
/// these rates, 1 to 8 channels.
pub proof fn lemma_high_pass_config_accepted(config: MetaAec3HighPassConfig)
    ensures
        high_pass_config_valid(config) <==> (
            (config.sample_rate_hz == 16_000 || config.sample_rate_hz == 32_000 || config.sample_rate_hz == 48_000)
            && 1 <= config.channels <= 8
        ),
{
}

/// The integer part of the statistics of one processing call.
pub struct HighPassReport {
    pub sample_rate_hz: i32,
    pub channels: i32,
    /// Samples processed by the call, saturating at `i32::MAX`.
    pub processed_samples: i32,
    /// Samples processed since creation, saturating at `u64::MAX`.
    pub total_processed_samples: u64,
}

/// High-pass filter state for one audio path.
pub struct HighPassHandle {
    config: MetaAec3HighPassConfig,
    filter: HighPassFilter,
    channels: usize,
    total_processed_samples: u64,
}

impl HighPassHandle {
    /// The configuration the handle was created (or last reconfigured) with.
    pub closed spec fn configured(&self) -> MetaAec3HighPassConfig {
        self.config
    }

    /// Samples processed since creation.
    pub closed spec fn processed_total(&self) -> u64 {
        self.total_processed_samples
    }

    /// The DSP filter.
    pub closed spec fn filter_of(&self) -> HighPassFilter {
        self.filter
    }

    /// The number of channels.
    pub closed spec fn channel_count(&self) -> nat {
        self.channels as nat
    }

    /// The handle `new` builds for an accepted `config`: a filter built for
    /// its rate and channels, and no samples counted yet.
    pub closed spec fn created(config: MetaAec3HighPassConfig) -> HighPassHandle {
        HighPassHandle {
            config,
            filter: new_high_pass_filter(config.sample_rate_hz, config.channels as usize),
            channels: config.channels as usize,
            total_processed_samples: 0,
        }
    }

    /// The handle's configuration is an accepted one and its channel count
    /// is the configured one.
    pub closed spec fn wf(&self) -> bool {
        &&& high_pass_config_valid(self.config)
        &&& self.channels == self.config.channels
    }

    /// Every valid handle holds an accepted configuration, and its channel
    /// count is the configured one.
    pub proof fn lemma_wf_config(&self)
        requires
            self.wf(),
        ensures
            high_pass_config_valid(self.configured()),
            self.channel_count() == self.configured().channels,
    {
    }

    /// Creates a filter; an unsupported rate or channel count is refused.
    pub fn new(config: MetaAec3HighPassConfig) -> (r: Result<Self, i32>)
        ensures
            r is Ok <==> high_pass_config_valid(config),
            r matches Ok(h) ==> {
                &&& h.wf()
                &&& h.configured() == config
                &&& h.channel_count() == config.channels
                &&& h.filter_of() == new_high_pass_filter(config.sample_rate_hz, config.channels as usize)
                &&& h.processed_total() == 0
                &&& h == HighPassHandle::created(config)
            },
            r matches Err(e) ==> e == META_AEC3_INVALID_CONFIG,
    {
        let sample_rate_hz = valid_sample_rate(config.sample_rate_hz)?;
        let channels = valid_channels(config.channels, 8)?;
        Ok(HighPassHandle {
            config,
            filter: high_pass_filter_new(sample_rate_hz as i32, channels),
            channels,
            total_processed_samples: 0,
        })
    }

    /// The current configuration.
    pub fn config(&self) -> (config: MetaAec3HighPassConfig)
        ensures
            config == self.configured(),
    {
        self.config
    }

    /// Clears the filter state; the configuration and the sample counter stay.
    pub fn reset(&mut self)
        requires
            old(self).wf(),
        ensures
            final(self).wf(),
            final(self).filter_of() == filter_after_reset(old(self).filter_of()),
            final(self).configured() == old(self).configured(),
            final(self).channel_count() == old(self).channel_count(),
            final(self).processed_total() == old(self).processed_total(),
    {
        high_pass_filter_reset(&mut self.filter);
    }

    /// Replaces the handle by a new one for `config`; a refused
    /// configuration leaves the handle as it was.
    pub fn reconfigure(&mut self, config: MetaAec3HighPassConfig) -> (r: Result<(), i32>)
        requires
            old(self).wf(),
        ensures
            r is Ok <==> high_pass_config_valid(config),
            final(self).wf(),
            r is Ok ==> {
                &&& final(self).configured() == config
                &&& final(self).channel_count() == config.channels
                &&& final(self).filter_of() == new_high_pass_filter(config.sample_rate_hz, config.channels as usize)
                &&& final(self).processed_total() == 0
                &&& *final(self) == HighPassHandle::created(config)
            },
            r is Err ==> *final(self) == *old(self),
            r matches Err(e) ==> e == META_AEC3_INVALID_CONFIG,
    {
        *self = Self::new(config)?;
        Ok(())
    }

    /// First step of processing interleaved `audio` in place: refuses an
    /// empty buffer or one that ends in a partial frame, and splits it into
    /// one buffer per channel for the filter.
    pub fn begin_process<T: Copy>(&self, audio: &[T]) -> (r: Result<Vec<Vec<T>>, i32>)
        requires
            self.wf(),
        ensures
            r is Ok <==> (audio@.len() != 0 && audio@.len() % self.channel_count() == 0),
            r matches Ok(planar) ==> rows_view(planar@) == deinterleaved(audio@, self.channel_count()),
            r matches Err(e) ==> e == META_AEC3_INVALID_ARGUMENT,
    {
        if audio.len() == 0 || audio.len() % self.channels != 0 {
            return Err(META_AEC3_INVALID_ARGUMENT);
        }
        Ok(deinterleave(audio, self.channels))
    }

    /// The filter, to run over the per-channel buffers; the configuration
    /// and the counter stay.
    pub fn filter_mut(&mut self) -> (filter: &mut HighPassFilter)
        ensures
            *filter == old(self).filter_of(),
            final(self).filter_of() == *final(filter),
            final(self).wf() == old(self).wf(),
            final(self).configured() == old(self).configured(),
            final(self).channel_count() == old(self).channel_count(),
            final(self).processed_total() == old(self).processed_total(),
    {
        &mut self.filter
    }

    /// Last step of processing: writes the filtered per-channel buffers back
    /// into `audio`, counts its samples and reports the call.
    pub fn finish_process<T: Copy>(&mut self, planar: &Vec<Vec<T>>, audio: &mut [T]) -> (report: HighPassReport)
        requires
            old(self).wf(),
            planar@.len() == old(self).channel_count(),
            rows_of_length(rows_view(planar@), old(audio)@.len() / old(self).channel_count()),
            old(audio)@.len() % old(self).channel_count() == 0,
        ensures
            final(self).wf(),
            final(self).configured() == old(self).configured(),
            final(self).channel_count() == old(self).channel_count(),
            final(self).processed_total() == saturating_total(old(self).processed_total(), old(audio)@.len() as u64),
            final(audio)@ == interleaved(rows_view(planar@), old(audio)@.len() / old(self).channel_count()),
            report.sample_rate_hz == old(self).configured().sample_rate_hz,
            report.channels == old(self).configured().channels,
            report.processed_samples == (if old(audio)@.len() <= i32_max() { old(audio)@.len() as int } else { i32_max() }),
            report.total_processed_samples == final(self).processed_total(),
    {
        let len = audio.len();
        let frames = len / self.channels;
        proof {
            vstd::arithmetic::div_mod::lemma_fundamental_div_mod(len as int, self.channels as int);
        }
        interleave_into(planar, frames, audio);
        self.total_processed_samples = add_to_total(self.total_processed_samples, len);
        HighPassReport {
            sample_rate_hz: self.config.sample_rate_hz,
            channels: self.config.channels,
            processed_samples: i32_from_usize(len),
            total_processed_samples: self.total_processed_samples,
        }
    }

    /// Interleaved samples in 10 ms of audio.
    pub fn samples_per_10ms(&self) -> (n: i32)
        requires
            self.wf(),
        ensures
            n == self.configured().sample_rate_hz / 100 * self.configured().channels,
    {
        proof {
            assert(self.config.sample_rate_hz / 100 * self.channels <= 480 * 8) by (nonlinear_arith)
                requires
                    self.config.sample_rate_hz <= 48_000,
                    self.config.sample_rate_hz >= 0,
                    self.channels <= 8,
            ;
        }
        i32_from_usize(self.config.sample_rate_hz as usize / 100 * self.channels)
    }
}

/// Opaque high-pass filter state handed across the C interface. One handle
/// is not safe for concurrent use.
pub struct MetaAec3HighPass(pub HighPassHandle);

} // verus!
