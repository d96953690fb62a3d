//! Call-scoped audio frames.
//!
//! A frame is a two-dimensional arrangement of 32-bit samples: the first
//! axis is the channel, the second the position within one hop. Samples
//! are carried as opaque 32-bit patterns; the engine's contract is about
//! shape and buffer lifecycle, never about the numeric content of a
//! sample. A frame is produced fresh per call and owned transiently: the
//! engine never retains one past the call that produced it.

use vstd::prelude::*;

verus! {

/// One block of audio spanning all channels for exactly one hop.
///
/// The samples live in one flat, channel-major buffer: channel `c`'s
/// samples occupy positions `c * samples_per_channel ..` in `data`.
#[derive(Debug, PartialEq, Eq)]
pub struct AudioFrame {
    channels: usize,
    samples_per_channel: usize,
    data: Vec<u32>,
}

/// The two-dimensional reading of a flat, channel-major sample buffer.
pub open spec fn grid_of(channels: usize, samples: usize, flat: Seq<u32>) -> Seq<Seq<u32>> {
    Seq::new(channels as nat, |c: int| Seq::new(samples as nat, |i: int| flat[c * samples + i]))
}

/// The view of an all-zero frame with `channels` rows of `samples` each.
pub open spec fn zero_grid(channels: usize, samples: usize) -> Seq<Seq<u32>> {
    Seq::new(channels as nat, |c: int| Seq::new(samples as nat, |i: int| 0u32))
}

/// A channel-major position within a frame stays within the flat buffer.
proof fn lemma_grid_index_bound(c: int, i: int, channels: int, samples: int)
    requires
        0 <= c < channels,
        0 <= i < samples,
    ensures
        0 <= c * samples + i < channels * samples,
{
    assert(0 <= c * samples + i < channels * samples) by (nonlinear_arith)
        requires
            0 <= c < channels,
            0 <= i < samples,
    ;
}

impl View for AudioFrame {
    type V = Seq<Seq<u32>>;

    closed spec fn view(&self) -> Seq<Seq<u32>> {
        grid_of(self.channels, self.samples_per_channel, self.data@)
    }
}

impl AudioFrame {
    /// How many channels the frame spans (the first axis).
    pub closed spec fn spec_channels(&self) -> usize {
        self.channels
    }

    /// How many samples each channel holds (the second axis).
    pub closed spec fn spec_samples_per_channel(&self) -> usize {
        self.samples_per_channel
    }

    #[verifier::type_invariant]
    spec fn wf(self) -> bool {
        self.data.len() == self.channels * self.samples_per_channel
    }

    /// The view has one row per channel, each as long as the hop.
    pub proof fn lemma_view_shape(&self)
        ensures
            self@.len() == self.spec_channels(),
            forall|c: int|
                0 <= c < self@.len() ==> (#[trigger] self@[c]).len()
                    == self.spec_samples_per_channel(),
    {
    }

    /// Assembles a frame from a flat, channel-major sample buffer,
    /// taking ownership of the buffer. Succeeds exactly when the buffer
    /// holds `channels * samples_per_channel` samples.
    pub fn from_raw(channels: usize, samples_per_channel: usize, data: Vec<u32>) -> (r: Option<
        AudioFrame,
    >)
        ensures
            r is Some <==> data.len() == channels * samples_per_channel,
            r matches Some(f) ==> {
                &&& f.spec_channels() == channels
                &&& f.spec_samples_per_channel() == samples_per_channel
                &&& f@ == grid_of(channels, samples_per_channel, data@)
            },
    {
        match channels.checked_mul(samples_per_channel) {
            Some(total) => {
                if total == data.len() {
                    Some(AudioFrame { channels, samples_per_channel, data })
                } else {
                    None
                }
            },
            None => None,
        }
    }

    /// A fresh all-zero frame of the given shape.
    pub fn zeroed(channels: usize, samples_per_channel: usize) -> (r: AudioFrame)
        requires
            channels * samples_per_channel <= usize::MAX,
        ensures
            r.spec_channels() == channels,
            r.spec_samples_per_channel() == samples_per_channel,
            r@ == zero_grid(channels, samples_per_channel),
    {
        let total: usize = channels * samples_per_channel;
        let mut data: Vec<u32> = Vec::new();
        while data.len() < total
            invariant
                data.len() <= total,
                forall|k: int| 0 <= k < data.len() ==> data[k] == 0u32,
            decreases total - data.len(),
        {
            data.push(0u32);
        }
        let r = AudioFrame { channels, samples_per_channel, data };
        proof {
            assert forall|c: int, i: int|
                0 <= c < channels && 0 <= i < samples_per_channel implies r@[c][i] == 0u32 by {
                lemma_grid_index_bound(c, i, channels as int, samples_per_channel as int);
            }
            assert(r@ =~~= zero_grid(channels, samples_per_channel));
        }
        r
    }

    /// How many channels the frame spans.
    pub fn channels(&self) -> (r: usize)
        ensures
            r == self.spec_channels(),
    {
        self.channels
    }

    /// How many samples each channel holds.
    pub fn samples_per_channel(&self) -> (r: usize)
        ensures
            r == self.spec_samples_per_channel(),
    {
        self.samples_per_channel
    }

    /// One sample, read through the two-dimensional view.
    pub fn sample(&self, channel: usize, index: usize) -> (r: u32)
        requires
            channel < self.spec_channels(),
            index < self.spec_samples_per_channel(),
        ensures
            r == self@[channel as int][index as int],
    {
        proof {
            use_type_invariant(self);
            lemma_grid_index_bound(
                channel as int,
                index as int,
                self.channels as int,
                self.samples_per_channel as int,
            );
        }
        self.data[channel * self.samples_per_channel + index]
    }

    /// Borrows the flat, channel-major sample buffer backing the frame.
    pub fn raw(&self) -> (r: &Vec<u32>)
        ensures
            r@.len() == self.spec_channels() * self.spec_samples_per_channel(),
            self@ == grid_of(self.spec_channels(), self.spec_samples_per_channel(), r@),
    {
        proof {
            use_type_invariant(self);
        }
        &self.data
    }

    /// Transfers the flat, channel-major sample buffer out of the frame;
    /// the caller becomes its sole owner.
    pub fn into_raw(self) -> (r: Vec<u32>)
        ensures
            r@.len() == self.spec_channels() * self.spec_samples_per_channel(),
            self@ == grid_of(self.spec_channels(), self.spec_samples_per_channel(), r@),
    {
        proof {
            use_type_invariant(&self);
        }
        self.data
    }
}

} // verus!
