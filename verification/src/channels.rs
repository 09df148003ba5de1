//! Interleaved and per-channel (planar) sample layouts.
//!
//! The C interface passes audio interleaved (frame by frame, one sample per
//! channel); the processors work on one buffer per channel. Sample `f` of
//! channel `c` sits at index `f * channels + c` of the interleaved buffer.

use vstd::prelude::*;
use vstd::arithmetic::div_mod::{
    lemma_fundamental_div_mod, lemma_fundamental_div_mod_converse_div,
    lemma_fundamental_div_mod_converse_mod,
};

verus! {

/// The per-channel buffers of an interleaved buffer with `channels` channels.
pub open spec fn deinterleaved<T>(samples: Seq<T>, channels: nat) -> Seq<Seq<T>> {
    Seq::new(
        channels,
        |c: int| Seq::new(samples.len() / channels, |f: int| samples[f * channels + c]),
    )
}

/// The interleaved buffer of `planar.len()` channels of `frames` samples each.
pub open spec fn interleaved<T>(planar: Seq<Seq<T>>, frames: nat) -> Seq<T> {
    Seq::new(
        planar.len() * frames,
        |i: int| planar[i % (planar.len() as int)][i / (planar.len() as int)],
    )
}

/// Whether every one of the buffers holds `frames` samples.
pub open spec fn rows_of_length<T>(planar: Seq<Seq<T>>, frames: nat) -> bool {
    forall|c: int| 0 <= c < planar.len() ==> #[trigger] planar[c].len() == frames
}

/// The contents of a vector of vectors.
pub open spec fn rows_view<T>(planar: Seq<Vec<T>>) -> Seq<Seq<T>> {
    Seq::new(planar.len(), |c: int| planar[c]@)
}

proof fn lemma_index_join(f: int, c: int, channels: int)
    requires
        0 <= c < channels,
    ensures
        (f * channels + c) / channels == f,
        (f * channels + c) % channels == c,
{
    lemma_fundamental_div_mod_converse_div(f * channels + c, channels, f, c);
    lemma_fundamental_div_mod_converse_mod(f * channels + c, channels, f, c);
}

proof fn lemma_index_split(i: int, channels: int)
    requires
        0 <= i,
        channels > 0,
    ensures
        i == (i / channels) * channels + i % channels,
        0 <= i % channels < channels,
        0 <= i / channels,
{
    lemma_fundamental_div_mod(i, channels);
    vstd::arithmetic::mul::lemma_mul_is_commutative(channels, i / channels);
    vstd::arithmetic::div_mod::lemma_div_pos_is_pos(i, channels);
}

proof fn lemma_index_in_bounds(f: int, c: int, channels: int, frames: int)
    requires
        0 <= f < frames,
        0 <= c < channels,
    ensures
        0 <= f * channels + c < frames * channels,
{
    assert(0 <= f * channels + c < frames * channels) by (nonlinear_arith)
        requires
            0 <= f < frames,
            0 <= c < channels,
    ;
}

proof fn lemma_frame_in_bounds(i: int, channels: int, frames: int)
    requires
        0 <= i < channels * frames,
        channels > 0,
    ensures
        i / channels < frames,
{
    lemma_index_split(i, channels);
    let f = i / channels;
    if f >= frames {
        assert(f * channels >= frames * channels) by (nonlinear_arith)
            requires
                f >= frames,
                channels > 0,
        ;
        assert(channels * frames == frames * channels) by (nonlinear_arith);
    }
}

proof fn lemma_length_split(len: int, channels: int)
    requires
        channels > 0,
        len >= 0,
        len % channels == 0,
    ensures
        channels * (len / channels) == len,
{
    lemma_index_split(len, channels);
    vstd::arithmetic::mul::lemma_mul_is_commutative(channels, len / channels);
}

/// Interleaving the per-channel buffers of an interleaved buffer gives the
/// buffer back.
pub proof fn lemma_interleave_deinterleave<T>(samples: Seq<T>, channels: nat)
    requires
        channels > 0,
        samples.len() % channels == 0,
    ensures
        interleaved(deinterleaved(samples, channels), samples.len() / channels) == samples,
{
    let ch = channels as int;
    let planar = deinterleaved(samples, channels);
    let frames = samples.len() / channels;
    lemma_length_split(samples.len() as int, ch);
    let back = interleaved(planar, frames);
    assert(back.len() == samples.len());
    assert forall|i: int| 0 <= i < samples.len() implies back[i] == samples[i] by {
        lemma_index_split(i, ch);
        lemma_frame_in_bounds(i, ch, frames as int);
    }
    assert(back =~= samples);
}

/// Splitting the interleaved buffer of equally long per-channel buffers into
/// channels gives the buffers back.
pub proof fn lemma_deinterleave_interleave<T>(planar: Seq<Seq<T>>, frames: nat)
    requires
        planar.len() > 0,
        rows_of_length(planar, frames),
    ensures
        deinterleaved(interleaved(planar, frames), planar.len()) == planar,
{
    let ch = planar.len() as int;
    let samples = interleaved(planar, frames);
    vstd::arithmetic::mul::lemma_mul_is_commutative(ch, frames as int);
    vstd::arithmetic::div_mod::lemma_div_multiples_vanish(frames as int, ch);
    let back = deinterleaved(samples, planar.len());
    assert(samples.len() / planar.len() == frames);
    assert forall|c: int| 0 <= c < ch implies #[trigger] back[c] =~= planar[c] by {
        assert(back[c].len() == frames);
        assert forall|f: int| 0 <= f < frames implies back[c][f] == planar[c][f] by {
            lemma_index_join(f, c, ch);
            lemma_index_in_bounds(f, c, ch, frames as int);
        }
    }
    assert(back =~= planar);
}

/// Channel `c` of an interleaved buffer holds, in time order, the samples at
/// `c`, `channels + c`, `2 * channels + c`, ...: sample `f` of channel `c`
/// is the interleaved sample `f * channels + c`.
pub proof fn lemma_deinterleaved_layout<T>(samples: Seq<T>, channels: nat, c: int, f: int)
    requires
        channels > 0,
        0 <= c < channels,
        0 <= f < samples.len() / channels,
    ensures
        deinterleaved(samples, channels).len() == channels,
        deinterleaved(samples, channels)[c].len() == samples.len() / channels,
        0 <= f * channels + c < samples.len(),
        deinterleaved(samples, channels)[c][f] == samples[f * channels + c],
{
    let ch = channels as int;
    let frames = samples.len() as int / ch;
    lemma_index_in_bounds(f, c, ch, frames);
    lemma_index_split(samples.len() as int, ch);
    assert(frames * ch <= samples.len()) by (nonlinear_arith)
        requires
            samples.len() as int == frames * ch + (samples.len() as int) % ch,
            0 <= (samples.len() as int) % ch,
    ;
}

/// Interleaving writes sample `f` of channel `c` to index
/// `f * channels + c`: frame by frame, one sample per channel in channel
/// order.
pub proof fn lemma_interleaved_layout<T>(planar: Seq<Seq<T>>, frames: nat, c: int, f: int)
    requires
        0 <= c < planar.len(),
        0 <= f < frames,
    ensures
        interleaved(planar, frames).len() == planar.len() * frames,
        0 <= f * (planar.len() as int) + c < planar.len() * frames,
        interleaved(planar, frames)[f * (planar.len() as int) + c] == planar[c][f],
{
    let ch = planar.len() as int;
    lemma_index_in_bounds(f, c, ch, frames as int);
    lemma_index_join(f, c, ch);
    assert(frames * ch == ch * frames) by (nonlinear_arith);
}

/// Splits an interleaved buffer of `channels` channels into one buffer per
/// channel.
pub fn deinterleave<T: Copy>(samples: &[T], channels: usize) -> (planar: Vec<Vec<T>>)
    requires
        channels > 0,
        samples@.len() % (channels as nat) == 0,
    ensures
        rows_view(planar@) == deinterleaved(samples@, channels as nat),
        planar@.len() == channels,
        forall|c: int| 0 <= c < channels ==> #[trigger] planar@[c]@.len() == samples@.len() / (channels as nat),
        forall|c: int, f: int| 0 <= c < channels && 0 <= f < samples@.len() / (channels as nat)
            ==> #[trigger] planar@[c]@[f] == samples@[f * channels + c],
{
    let len = samples.len();
    let frames = len / channels;
    proof {
        lemma_length_split(samples@.len() as int, channels as int);
        vstd::arithmetic::mul::lemma_mul_is_commutative(channels as int, frames as int);
    }
    let ghost target = deinterleaved(samples@, channels as nat);
    let mut planar: Vec<Vec<T>> = Vec::new();
    let mut c: usize = 0;
    while c < channels
        invariant
            c <= channels,
            frames == samples@.len() / (channels as nat),
            frames * channels == samples@.len(),
            len == samples@.len(),
            target == deinterleaved(samples@, channels as nat),
            planar@.len() == c,
            forall|k: int| 0 <= k < c ==> #[trigger] planar@[k]@ == target[k],
        decreases channels - c,
    {
        let mut row: Vec<T> = Vec::new();
        let mut f: usize = 0;
        while f < frames
            invariant
                c < channels,
                f <= frames,
                frames == samples@.len() / (channels as nat),
                frames * channels == samples@.len(),
                len == samples@.len(),
                row@.len() == f,
                forall|j: int| 0 <= j < f ==> #[trigger] row@[j] == samples@[j * channels + c],
            decreases frames - f,
        {
            proof {
                lemma_index_in_bounds(f as int, c as int, channels as int, frames as int);
                assert(f * channels + c < samples@.len());
                assert(f * channels <= f * channels + c);
            }
            row.push(samples[f * channels + c]);
            f = f + 1;
        }
        assert(row@ =~= target[c as int]);
        planar.push(row);
        c = c + 1;
    }
    assert(rows_view(planar@) =~= target);
    assert forall|c: int, f: int| 0 <= c < channels && 0 <= f < samples@.len() / (channels as nat)
        implies #[trigger] planar@[c]@[f] == samples@[f * channels + c] by {
        assert(planar@[c]@ == rows_view(planar@)[c]);
    }
    planar
}

/// Writes per-channel buffers of `frames` samples each into an interleaved
/// buffer.
pub fn interleave_into<T: Copy>(planar: &Vec<Vec<T>>, frames: usize, samples: &mut [T])
    requires
        planar@.len() > 0,
        rows_of_length(rows_view(planar@), frames as nat),
        old(samples)@.len() == planar@.len() * frames,
    ensures
        final(samples)@ == interleaved(rows_view(planar@), frames as nat),
        final(samples)@.len() == old(samples)@.len(),
        forall|c: int, f: int| 0 <= c < planar@.len() && 0 <= f < frames
            ==> #[trigger] planar@[c]@[f] == final(samples)@[f * planar@.len() + c],
{
    let channels = planar.len();
    let len = samples.len();
    let ghost rows = rows_view(planar@);
    let mut i: usize = 0;
    while i < len
        invariant
            channels == planar@.len(),
            channels > 0,
            rows == rows_view(planar@),
            rows_of_length(rows, frames as nat),
            len == samples@.len(),
            len == channels * frames,
            i <= len,
            forall|j: int| 0 <= j < i ==> #[trigger] samples@[j] == rows[j % (channels as int)][j / (channels as int)],
        decreases len - i,
    {
        proof {
            lemma_index_split(i as int, channels as int);
            lemma_frame_in_bounds(i as int, channels as int, frames as int);
            let k = (i % channels) as int;
            assert(rows[k].len() == frames);
            assert(rows[k] == planar@[k]@);
        }
        samples[i] = planar[i % channels][i / channels];
        i = i + 1;
    }
    assert(samples@ =~= interleaved(rows, frames as nat));
    assert forall|c: int, f: int| 0 <= c < planar@.len() && 0 <= f < frames
        implies #[trigger] planar@[c]@[f] == samples@[f * planar@.len() + c] by {
        lemma_interleaved_layout(rows, frames as nat, c, f);
        assert(rows[c] == planar@[c]@);
    }
}

} // verus!
