//! The gain controller (AGC2): its integer settings, the checks that decide
//! whether a configuration and a processing call are accepted, the frame
//! accounting of a call, the tracking of the recommended input volume and
//! the sample counter.

use vstd::prelude::*;
use aec3::audio_processing::audio_buffer::AudioBuffer;
use crate::checks::{
    add_to_total, bool_from_ffi, checked_frame_batch_length, i32_from_usize, i32_max,
    is_supported_rate, saturating_total, valid_channels, valid_sample_rate,
};
use crate::frame_io::AudioFrameIo;
use crate::status::{META_AEC3_BUFFER_TOO_SMALL, META_AEC3_INVALID_ARGUMENT, META_AEC3_INVALID_CONFIG};

verus! {

/// The integer fields of the gain controller's configuration (the C
/// interface passes booleans as integers, nonzero meaning true).
#[derive(Clone, Copy, Debug, PartialEq, Eq)]
pub struct GainControllerSettings {
    pub sample_rate_hz: i32,
    pub channels: i32,
    pub enable_adaptive_digital: i32,
    pub enable_input_volume_controller: i32,
    pub use_internal_vad: i32,
    pub capture_output_used: i32,
    pub ivc_min_input_volume: i32,
    pub ivc_clipped_level_min: i32,
    pub ivc_clipped_level_step: i32,
    pub ivc_clipped_wait_frames: i32,
    pub ivc_enable_clipping_predictor: i32,
    pub ivc_target_range_max_dbfs: i32,
    pub ivc_target_range_experimental_max_dbfs: i32,
    pub ivc_target_range_min_dbfs: i32,
    pub ivc_update_input_volume_wait_frames: i32,
}

impl Default for GainControllerSettings {
    /// The integer fields of the gain controller's default configuration:
    /// 48 kHz mono, adaptive digital gain on, input-volume controller off.
    fn default() -> (s: Self)
        ensures
            s == (GainControllerSettings {
                sample_rate_hz: 48_000,
                channels: 1,
                enable_adaptive_digital: 1,
                enable_input_volume_controller: 0,
                use_internal_vad: 1,
                capture_output_used: 1,
                ivc_min_input_volume: 20,
                ivc_clipped_level_min: 70,
                ivc_clipped_level_step: 15,
                ivc_clipped_wait_frames: 300,
                ivc_enable_clipping_predictor: 1,
                ivc_target_range_max_dbfs: -30i32,
                ivc_target_range_experimental_max_dbfs: -12i32,
                ivc_target_range_min_dbfs: -50i32,
                ivc_update_input_volume_wait_frames: 100,
            }),
    {
        GainControllerSettings {
            sample_rate_hz: 48_000,
            channels: 1,
            enable_adaptive_digital: 1,
            enable_input_volume_controller: 0,
            use_internal_vad: 1,
            capture_output_used: 1,
            ivc_min_input_volume: 20,
            ivc_clipped_level_min: 70,
            ivc_clipped_level_step: 15,
            ivc_clipped_wait_frames: 300,
            ivc_enable_clipping_predictor: 1,
            ivc_target_range_max_dbfs: -30,
            ivc_target_range_experimental_max_dbfs: -12,
            ivc_target_range_min_dbfs: -50,
            ivc_update_input_volume_wait_frames: 100,
        }
    }
}

/// The flags the gain controller is built with, converted from the settings.
#[derive(Clone, Copy, Debug, PartialEq, Eq)]
pub struct GainConfigValues {
    pub enable_adaptive_digital: bool,
    pub enable_input_volume_controller: bool,
    pub use_internal_vad: bool,
    pub ivc_enable_clipping_predictor: bool,
}

/// The input-volume controller's integer options are in range: volumes from
/// 0 to 255, a positive clipping step and non-negative waits.
pub open spec fn gain_levels_valid(s: GainControllerSettings) -> bool {
    &&& 0 <= s.ivc_min_input_volume <= 255
    &&& 0 <= s.ivc_clipped_level_min <= 255
    &&& s.ivc_clipped_level_step > 0
    &&& s.ivc_clipped_wait_frames >= 0
    &&& s.ivc_update_input_volume_wait_frames >= 0
}

/// A supported rate and 1 to 8 channels.
pub open spec fn gain_stream_valid(s: GainControllerSettings) -> bool {
    is_supported_rate(s.sample_rate_hz as int) && 1 <= s.channels <= 8
}

/// The accepted gain settings: 16, 32 or 48 kHz, 1 to 8 channels whatever
/// the rate, volumes from 0 to 255, a positive clipping step and waits of
/// zero or more.
pub proof fn lemma_gain_settings_accepted(s: GainControllerSettings)
    ensures
        (gain_stream_valid(s) && gain_levels_valid(s)) <==> (
            (s.sample_rate_hz == 16_000 || s.sample_rate_hz == 32_000 || s.sample_rate_hz == 48_000)
            && 1 <= s.channels <= 8
            && 0 <= s.ivc_min_input_volume <= 255
            && 0 <= s.ivc_clipped_level_min <= 255
            && s.ivc_clipped_level_step > 0
            && s.ivc_clipped_wait_frames >= 0
            && s.ivc_update_input_volume_wait_frames >= 0
        ),
{
}

/// Interleaved samples in one 10-ms frame.
pub open spec fn gain_frame_len(s: GainControllerSettings) -> int {
    (s.sample_rate_hz / 100) * s.channels
}

/// A 10-ms frame holds `rate / 100` samples on each channel.
pub proof fn lemma_gain_frame_length(s: GainControllerSettings)
    ensures
        gain_frame_len(s) == (s.sample_rate_hz / 100) * s.channels,
        s.sample_rate_hz == 16_000 ==> gain_frame_len(s) == 160 * s.channels,
        s.sample_rate_hz == 48_000 ==> gain_frame_len(s) == 480 * s.channels,
{
}

/// The input volume recommended after a run of frames that started from
/// `start`: the last frame's recommendation that was made, else `start`.
pub open spec fn latest_recommendation(start: i32, recommendations: Seq<Option<i32>>) -> i32
    decreases recommendations.len(),
{
    if recommendations.len() == 0 {
        start
    } else {
        match recommendations.last() {
            Some(volume) => volume,
            None => latest_recommendation(start, recommendations.drop_last()),
        }
    }
}

/// Where no frame of a run recommends an input volume, the run's
/// recommendation is the one it started from.
pub proof fn lemma_no_recommendation(start: i32, recommendations: Seq<Option<i32>>)
    requires
        forall|i: int| 0 <= i < recommendations.len() ==> recommendations[i] is None,
    ensures
        latest_recommendation(start, recommendations) == start,
    decreases recommendations.len(),
{
    if recommendations.len() > 0 {
        lemma_no_recommendation(start, recommendations.drop_last());
    }
}

/// Where frame `i` of a run recommends a volume and no later frame does, the
/// run's recommendation is frame `i`'s.
pub proof fn lemma_last_recommendation(start: i32, recommendations: Seq<Option<i32>>, i: int)
    requires
        0 <= i < recommendations.len(),
        recommendations[i] is Some,
        forall|j: int| i < j < recommendations.len() ==> recommendations[j] is None,
    ensures
        latest_recommendation(start, recommendations) == recommendations[i]->0,
    decreases recommendations.len(),
{
    if i < recommendations.len() - 1 {
        lemma_last_recommendation(start, recommendations.drop_last(), i);
    }
}

/// Checks the integer options and converts the flags; an option out of
/// range is refused.
pub fn make_gain_configs(s: &GainControllerSettings) -> (r: Result<GainConfigValues, i32>)
    ensures
        r is Ok <==> gain_levels_valid(*s),
        r matches Ok(v) ==> {
            &&& v.enable_adaptive_digital == (s.enable_adaptive_digital != 0)
            &&& v.enable_input_volume_controller == (s.enable_input_volume_controller != 0)
            &&& v.use_internal_vad == (s.use_internal_vad != 0)
            &&& v.ivc_enable_clipping_predictor == (s.ivc_enable_clipping_predictor != 0)
        },
        r matches Err(e) ==> e == META_AEC3_INVALID_CONFIG,
{
    if !(0 <= s.ivc_min_input_volume && s.ivc_min_input_volume <= 255)
        || !(0 <= s.ivc_clipped_level_min && s.ivc_clipped_level_min <= 255)
        || s.ivc_clipped_level_step <= 0
        || s.ivc_clipped_wait_frames < 0
        || s.ivc_update_input_volume_wait_frames < 0
    {
        return Err(META_AEC3_INVALID_CONFIG);
    }
    Ok(GainConfigValues {
        enable_adaptive_digital: bool_from_ffi(s.enable_adaptive_digital),
        enable_input_volume_controller: bool_from_ffi(s.enable_input_volume_controller),
        use_internal_vad: bool_from_ffi(s.use_internal_vad),
        ivc_enable_clipping_predictor: bool_from_ffi(s.ivc_enable_clipping_predictor),
    })
}

/// The frame accounting of an accepted processing call.
pub struct GainPlan {
    /// Number of 10-ms frames in the call.
    pub batches: usize,
    /// Interleaved samples per frame.
    pub samples_per_frame: usize,
    /// Output samples the call writes (all of its input).
    pub needed: usize,
    /// Whether the processed audio is used downstream.
    pub capture_output_used: bool,
}

/// The integer part of the statistics of one processing call.
pub struct GainReport {
    pub sample_rate_hz: i32,
    pub channels: i32,
    /// Samples processed by the call, saturating at `i32::MAX`.
    pub processed_samples: i32,
    pub total_processed_samples: u64,
    pub applied_input_volume: i32,
    /// The last input volume recommended during the call, or -1 when none was.
    pub recommended_input_volume: i32,
}

/// Gain controller state around the DSP controller: settings, frame buffer,
/// the recommendation of the current call and the sample counter.
pub struct GainControllerState {
    settings: GainControllerSettings,
    io: AudioFrameIo,
    last_recommended_input_volume: i32,
    recommendations: Ghost<Seq<Option<i32>>>,
    total_processed_samples: u64,
}

impl GainControllerState {
    /// The current settings.
    pub closed spec fn settings_of(&self) -> GainControllerSettings {
        self.settings
    }

    /// Samples processed since creation.
    pub closed spec fn processed_total(&self) -> u64 {
        self.total_processed_samples
    }

    /// The frame buffer.
    pub closed spec fn io_of(&self) -> AudioFrameIo {
        self.io
    }

    /// The recommendations the frames of the current call have made so far.
    pub closed spec fn recommendations_of(&self) -> Seq<Option<i32>> {
        self.recommendations@
    }

    /// The last input volume recommended during the current call, or -1.
    pub closed spec fn recommended(&self) -> i32 {
        self.last_recommended_input_volume
    }

    /// The settings are accepted ones, the frame buffer matches them and the
    /// recommendation is the one the current call's frames made.
    pub closed spec fn wf(&self) -> bool {
        &&& gain_stream_valid(self.settings)
        &&& gain_levels_valid(self.settings)
        &&& self.io.wf()
        &&& self.io.channel_count() == self.settings.channels
        &&& self.io.frame_count() == self.settings.sample_rate_hz / 100
        &&& self.last_recommended_input_volume == latest_recommendation(-1i32, self.recommendations@)
    }

    /// Every valid state holds accepted settings, and its frame buffer has
    /// the configured channels and 10 ms of samples per channel.
    pub proof fn lemma_wf_settings(&self)
        requires
            self.wf(),
        ensures
            gain_stream_valid(self.settings_of()),
            gain_levels_valid(self.settings_of()),
            self.io_of().wf(),
            self.io_of().channel_count() == self.settings_of().channels,
            self.io_of().frame_count() == self.settings_of().sample_rate_hz / 100,
    {
    }

    /// Checks the settings and sets up the frame buffer; also gives the
    /// flags the DSP controller is to be built with. A refused configuration
    /// gives `META_AEC3_INVALID_CONFIG`.
    pub fn new(settings: GainControllerSettings) -> (r: Result<(Self, GainConfigValues), i32>)
        ensures
            r is Ok <==> (gain_stream_valid(settings) && gain_levels_valid(settings)),
            r matches Ok((state, values)) ==> {
                &&& state.wf()
                &&& state.settings_of() == settings
                &&& state.io_of().buffer_matches()
                &&& state.processed_total() == 0
                &&& state.recommended() == -1
                &&& state.recommendations_of() == Seq::<Option<i32>>::empty()
                &&& values.enable_adaptive_digital == (settings.enable_adaptive_digital != 0)
                &&& values.enable_input_volume_controller == (settings.enable_input_volume_controller != 0)
                &&& values.use_internal_vad == (settings.use_internal_vad != 0)
                &&& values.ivc_enable_clipping_predictor == (settings.ivc_enable_clipping_predictor != 0)
            },
            r matches Err(e) ==> e == META_AEC3_INVALID_CONFIG,
    {
        let sample_rate_hz = valid_sample_rate(settings.sample_rate_hz)?;
        let channels = valid_channels(settings.channels, 8)?;
        let values = make_gain_configs(&settings)?;
        let state = GainControllerState {
            settings,
            io: AudioFrameIo::new(sample_rate_hz, channels),
            last_recommended_input_volume: -1,
            recommendations: Ghost(Seq::empty()),
            total_processed_samples: 0,
        };
        Ok((state, values))
    }

    /// The current settings.
    pub fn settings(&self) -> (s: GainControllerSettings)
        ensures
            s == self.settings_of(),
    {
        self.settings
    }

    /// Records whether the processed audio is used downstream.
    pub fn set_capture_output_used(&mut self, used: bool)
        requires
            old(self).wf(),
        ensures
            final(self).wf(),
            final(self).settings_of() == (GainControllerSettings {
                capture_output_used: if used { 1i32 } else { 0i32 },
                ..old(self).settings_of()
            }),
            final(self).processed_total() == old(self).processed_total(),
            final(self).recommended() == old(self).recommended(),
    {
        self.settings.capture_output_used = if used { 1 } else { 0 };
    }

    /// The frame buffer.
    pub fn io(&self) -> (io: &AudioFrameIo)
        requires
            self.wf(),
        ensures
            *io == self.io_of(),
            io.wf(),
            io.channel_count() == self.settings_of().channels,
            io.frame_count() == self.settings_of().sample_rate_hz / 100,
    {
        &self.io
    }

    /// The frame's DSP buffer, to load, process and read back a frame; the
    /// state otherwise stays as it is.
    pub fn buffer_mut(&mut self) -> (buffer: &mut AudioBuffer)
        requires
            old(self).wf(),
        ensures
            *buffer == old(self).io_of().buffer_of(),
            final(self).io_of() == old(self).io_of().with_buffer(*final(buffer)),
            final(self).wf(),
            final(self).settings_of() == old(self).settings_of(),
            final(self).processed_total() == old(self).processed_total(),
            final(self).recommended() == old(self).recommended(),
            final(self).recommendations_of() == old(self).recommendations_of(),
    {
        self.io.buffer_mut()
    }

    /// Checks a processing call of `input_len` interleaved samples with an
    /// output buffer of `output_len` samples and an applied input volume. In
    /// this order: the volume must be from 0 to 255 and the input must hold
    /// one or more whole 10-ms frames (else `META_AEC3_INVALID_ARGUMENT`); the
    /// output must hold as many samples (else `META_AEC3_BUFFER_TOO_SMALL`).
    /// An accepted call starts with no recommendation (-1).
    pub fn begin_process(&mut self, applied_input_volume: i32, input_len: usize, output_len: usize) -> (r: Result<GainPlan, i32>)
        requires
            old(self).wf(),
        ensures
            final(self).wf(),
            ({
                let per_frame = gain_frame_len(old(self).settings_of());
                let volume_ok = 0 <= applied_input_volume <= 255;
                let whole = input_len != 0 && (input_len as int) % per_frame == 0;
                &&& r is Ok <==> (volume_ok && whole && output_len >= input_len)
                &&& !(volume_ok && whole) ==> r == Err::<GainPlan, i32>(META_AEC3_INVALID_ARGUMENT)
                &&& volume_ok && whole && output_len < input_len ==> r == Err::<GainPlan, i32>(META_AEC3_BUFFER_TOO_SMALL)
                &&& r is Err ==> *final(self) == *old(self)
                &&& r matches Ok(plan) ==> {
                    &&& volume_ok
                    &&& whole
                    &&& output_len >= input_len
                    &&& plan.batches == (input_len as int) / per_frame
                    &&& plan.batches >= 1
                    &&& plan.samples_per_frame == per_frame
                    &&& plan.needed == input_len
                    &&& plan.batches * plan.samples_per_frame == input_len
                    &&& plan.capture_output_used == (old(self).settings_of().capture_output_used != 0)
                    &&& final(self).settings_of() == old(self).settings_of()
                    &&& final(self).processed_total() == old(self).processed_total()
                    &&& final(self).recommended() == -1
                    &&& final(self).recommendations_of() == Seq::<Option<i32>>::empty()
                }
            }),
    {
        if !(0 <= applied_input_volume && applied_input_volume <= 255) {
            return Err(META_AEC3_INVALID_ARGUMENT);
        }
        let samples_per_frame = self.io.samples_per_frame();
        proof {
            vstd::arithmetic::mul::lemma_mul_is_commutative(self.io.frame_count() as int, self.settings.channels as int);
            assert(samples_per_frame > 0) by (nonlinear_arith)
                requires
                    samples_per_frame == self.io.frame_count() * self.io.channel_count(),
                    self.io.frame_count() >= 160,
                    self.io.channel_count() >= 1,
            ;
        }
        let batches = checked_frame_batch_length(input_len, self.settings.channels as usize, self.io.frames())?;
        let needed = batches * samples_per_frame;
        if output_len < needed {
            return Err(META_AEC3_BUFFER_TOO_SMALL);
        }
        self.last_recommended_input_volume = -1;
        self.recommendations = Ghost(Seq::empty());
        Ok(GainPlan {
            batches,
            samples_per_frame,
            needed,
            capture_output_used: bool_from_ffi(self.settings.capture_output_used),
        })
    }

    /// Records the input volume the DSP controller recommends after a frame,
    /// if it recommends one.
    pub fn record_recommendation(&mut self, recommended: Option<i32>)
        requires
            old(self).wf(),
        ensures
            final(self).wf(),
            final(self).settings_of() == old(self).settings_of(),
            final(self).processed_total() == old(self).processed_total(),
            final(self).recommendations_of() == old(self).recommendations_of().push(recommended),
            final(self).recommended() == match recommended {
                Some(volume) => volume,
                None => old(self).recommended(),
            },
    {
        self.last_recommended_input_volume = match recommended {
            Some(volume) => volume,
            None => self.last_recommended_input_volume,
        };
        self.recommendations = Ghost(self.recommendations@.push(recommended));
        proof {
            assert(self.recommendations@.drop_last() =~= old(self).recommendations@);
        }
    }

    /// Counts the samples of an accepted call that wrote `needed` samples,
    /// and reports the call.
    pub fn finish_process(&mut self, needed: usize, applied_input_volume: i32) -> (report: GainReport)
        requires
            old(self).wf(),
        ensures
            final(self).wf(),
            final(self).settings_of() == old(self).settings_of(),
            final(self).processed_total() == saturating_total(old(self).processed_total(), needed as u64),
            final(self).recommended() == old(self).recommended(),
            final(self).recommendations_of() == old(self).recommendations_of(),
            report.sample_rate_hz == old(self).settings_of().sample_rate_hz,
            report.channels == old(self).settings_of().channels,
            report.processed_samples == (if needed <= i32_max() { needed as int } else { i32_max() }),
            report.total_processed_samples == final(self).processed_total(),
            report.applied_input_volume == applied_input_volume,
            report.recommended_input_volume == latest_recommendation(-1i32, old(self).recommendations_of()),
    {
        self.total_processed_samples = add_to_total(self.total_processed_samples, needed);
        GainReport {
            sample_rate_hz: self.settings.sample_rate_hz,
            channels: self.settings.channels,
            processed_samples: i32_from_usize(needed),
            total_processed_samples: self.total_processed_samples,
            applied_input_volume,
            recommended_input_volume: self.last_recommended_input_volume,
        }
    }

    /// Interleaved samples in 10 ms of audio.
    pub fn samples_per_10ms(&self) -> (n: i32)
        requires
            self.wf(),
        ensures
            n == gain_frame_len(self.settings_of()),
    {
        let n = self.io.samples_per_frame();
        proof {
            vstd::arithmetic::mul::lemma_mul_is_commutative(self.io.frame_count() as int, self.io.channel_count() as int);
            assert(n <= 480 * 8) by (nonlinear_arith)
                requires
                    n == self.io.frame_count() * self.io.channel_count(),
                    self.io.frame_count() <= 480,
                    self.io.channel_count() <= 8,
            ;
        }
        i32_from_usize(n)
    }
}

} // verus!
