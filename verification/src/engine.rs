//! The enhancement engine: fixed configuration, strict shape validation,
//! and the buffer lifecycle of one processing call.
//!
//! An engine is created once per audio stream and destroyed when the
//! stream ends. Its configuration — channel count, sample rate, hop
//! size — never changes after construction, and every method here takes
//! the engine by shared reference: no call can alter it. The model's
//! recurrent state, the only mutable state of a stream, lives in the
//! per-channel `df::DFState` values the caller owns alongside the engine.
//!
//! One processing call runs in three steps. `begin_hop` validates the
//! input frame's shape against the fixed configuration and hands back a
//! fresh all-zero output frame of the same shape. The caller then lets
//! the model fill that frame, channel by channel, threading each
//! channel's recurrent state. `finish_hop` translates the model's
//! outcome into the engine's result. The engine buffers nothing across
//! hops: each call is exactly one hop.

use vstd::prelude::*;

use df::DFState;

use crate::errors::ConstructionError;
use crate::errors::FrameDim;
use crate::errors::ProcessError;
use crate::errors::ProcessingError;
use crate::errors::ShapeError;
use crate::frame::zero_grid;
use crate::frame::AudioFrame;
use crate::model;
use crate::model::DEFAULT_HOP_SIZE;
use crate::model::DEFAULT_SAMPLE_RATE;

verus! {

/// The verdict of holding a frame of shape `(actual_channels,
/// actual_samples)` against a configuration that fixes
/// `(expected_channels, expected_samples)`: the channel axis is checked
/// first, and the first mismatched axis is reported with both lengths.
pub open spec fn shape_verdict(
    expected_channels: usize,
    expected_samples: usize,
    actual_channels: usize,
    actual_samples: usize,
) -> Result<(), ShapeError> {
    if actual_channels != expected_channels {
        Err(
            ShapeError {
                dim: FrameDim::Channels,
                expected: expected_channels,
                actual: actual_channels,
            },
        )
    } else if actual_samples != expected_samples {
        Err(
            ShapeError { dim: FrameDim::Samples, expected: expected_samples, actual: actual_samples },
        )
    } else {
        Ok(())
    }
}

/// What `begin_hop` returns on an engine fixing `(channels, hop_size)`,
/// for an input frame of shape `(input_channels, input_samples)`: the
/// view of a fresh all-zero output frame when the shape matches, and the
/// shape verdict's error otherwise.
pub open spec fn begin_verdict(
    channels: usize,
    hop_size: usize,
    input_channels: usize,
    input_samples: usize,
) -> Result<Seq<Seq<u32>>, ProcessError> {
    match shape_verdict(channels, hop_size, input_channels, input_samples) {
        Ok(()) => Ok(zero_grid(channels, hop_size)),
        Err(e) => Err(ProcessError::Shape(e)),
    }
}

/// A frame-synchronous enhancement engine over one fixed model
/// configuration.
///
/// The engine is the unit of thread exclusivity: it is deliberately
/// neither clonable nor shareable, and the caller must issue processing
/// calls in the stream's hop order, one at a time.
pub struct Engine {
    channels: usize,
    sample_rate: usize,
    hop_size: usize,
}

impl Engine {
    /// The channel count fixed at construction.
    pub closed spec fn spec_channels(&self) -> usize {
        self.channels
    }

    /// The sample rate fixed at construction.
    pub closed spec fn spec_sample_rate(&self) -> usize {
        self.sample_rate
    }

    /// The hop size fixed at construction.
    pub closed spec fn spec_hop_size(&self) -> usize {
        self.hop_size
    }

    #[verifier::type_invariant]
    spec fn wf(self) -> bool {
        &&& self.channels > 0
        &&& self.sample_rate > 0
        &&& self.hop_size > 0
        &&& self.channels * self.hop_size <= usize::MAX
    }

    /// Builds an engine for a model that fixed the given configuration.
    ///
    /// Succeeds exactly when all three parameters are positive and one
    /// frame of the geometry fits in memory; the error names the first
    /// parameter at fault, in the order channels, sample rate, hop size,
    /// geometry.
    pub fn new(channels: usize, sample_rate: usize, hop_size: usize) -> (r: Result<
        Engine,
        ConstructionError,
    >)
        ensures
            r is Ok <==> channels > 0 && sample_rate > 0 && hop_size > 0 && channels * hop_size
                <= usize::MAX,
            r matches Ok(e) ==> e.spec_channels() == channels && e.spec_sample_rate() == sample_rate
                && e.spec_hop_size() == hop_size,
            channels == 0 ==> r == Err::<Engine, ConstructionError>(ConstructionError::ZeroChannels),
            channels > 0 && sample_rate == 0 ==> r == Err::<Engine, ConstructionError>(
                ConstructionError::ZeroSampleRate,
            ),
            channels > 0 && sample_rate > 0 && hop_size == 0 ==> r == Err::<
                Engine,
                ConstructionError,
            >(ConstructionError::ZeroHopSize),
            channels > 0 && sample_rate > 0 && hop_size > 0 && channels * hop_size > usize::MAX
                ==> r == Err::<Engine, ConstructionError>(ConstructionError::FrameOverflow),
    {
        if channels == 0 {
            Err(ConstructionError::ZeroChannels)
        } else if sample_rate == 0 {
            Err(ConstructionError::ZeroSampleRate)
        } else if hop_size == 0 {
            Err(ConstructionError::ZeroHopSize)
        } else {
            match channels.checked_mul(hop_size) {
                Some(_) => Ok(Engine { channels, sample_rate, hop_size }),
                None => Err(ConstructionError::FrameOverflow),
            }
        }
    }

    /// Builds an engine over the default noise-suppression model: one
    /// recurrent state per channel, with the sample rate and hop size the
    /// built model fixes. The caller owns the states alongside the engine
    /// and threads them, in channel order, through every hop.
    pub fn new_default(channels: usize) -> (r: Result<(Engine, Vec<DFState>), ConstructionError>)
        ensures
            r is Ok <==> 0 < channels && channels * DEFAULT_HOP_SIZE <= usize::MAX,
            r matches Ok(p) ==> {
                &&& p.0.spec_channels() == channels
                &&& p.0.spec_sample_rate() == DEFAULT_SAMPLE_RATE
                &&& p.0.spec_hop_size() == DEFAULT_HOP_SIZE
                &&& p.1.len() == channels
            },
            channels == 0 ==> (r matches Err(e) && e == ConstructionError::ZeroChannels),
            0 < channels && channels * DEFAULT_HOP_SIZE > usize::MAX ==> (r matches Err(e) && e
                == ConstructionError::FrameOverflow),
    {
        let (states, sample_rate, hop_size) = model::default_model(channels);
        match Engine::new(channels, sample_rate, hop_size) {
            Ok(engine) => Ok((engine, states)),
            Err(e) => Err(e),
        }
    }

    /// The channel count fixed at construction. Never fails, never
    /// changes, and is always positive.
    pub fn channels(&self) -> (r: usize)
        ensures
            r == self.spec_channels(),
            r > 0,
    {
        proof {
            use_type_invariant(self);
        }
        self.channels
    }

    /// The sample rate fixed at construction. Never fails, never
    /// changes, and is always positive.
    pub fn sample_rate(&self) -> (r: usize)
        ensures
            r == self.spec_sample_rate(),
            r > 0,
    {
        proof {
            use_type_invariant(self);
        }
        self.sample_rate
    }

    /// The hop size fixed at construction. Never fails, never changes,
    /// and is always positive.
    pub fn hop_size(&self) -> (r: usize)
        ensures
            r == self.spec_hop_size(),
            r > 0,
    {
        proof {
            use_type_invariant(self);
        }
        self.hop_size
    }

    /// Validates one input frame and allocates the output frame of one
    /// processing call.
    ///
    /// The input must span exactly the engine's channels and exactly one
    /// hop per channel; the first mismatched axis is reported, channels
    /// before samples, with the expected and actual lengths. On a match,
    /// the returned frame is fresh, all-zero, of shape `(channels,
    /// hop_size)`, ready for the model to fill. A rejected call leaves
    /// the engine as usable as before: the engine itself never changes.
    pub fn begin_hop(&self, input: &AudioFrame) -> (r: Result<AudioFrame, ProcessError>)
        ensures
            r is Ok <==> input.spec_channels() == self.spec_channels()
                && input.spec_samples_per_channel() == self.spec_hop_size(),
            r matches Ok(out) ==> {
                &&& out.spec_channels() == self.spec_channels()
                &&& out.spec_samples_per_channel() == self.spec_hop_size()
                &&& out@ == zero_grid(self.spec_channels(), self.spec_hop_size())
            },
            r matches Err(e) ==> Err::<Seq<Seq<u32>>, ProcessError>(e) == begin_verdict(
                self.spec_channels(),
                self.spec_hop_size(),
                input.spec_channels(),
                input.spec_samples_per_channel(),
            ),
    {
        proof {
            use_type_invariant(self);
        }
        let input_channels = input.channels();
        let input_samples = input.samples_per_channel();
        if input_channels != self.channels {
            Err(
                ProcessError::Shape(
                    ShapeError {
                        dim: FrameDim::Channels,
                        expected: self.channels,
                        actual: input_channels,
                    },
                ),
            )
        } else if input_samples != self.hop_size {
            Err(
                ProcessError::Shape(
                    ShapeError {
                        dim: FrameDim::Samples,
                        expected: self.hop_size,
                        actual: input_samples,
                    },
                ),
            )
        } else {
            Ok(AudioFrame::zeroed(self.channels, self.hop_size))
        }
    }

    /// Translates the model's outcome into the engine's result.
    ///
    /// A filled output frame passes through unchanged — its buffer's
    /// ownership moves to the caller, the engine keeps no reference — and
    /// a model failure becomes a recoverable `ProcessError::Processing`
    /// carrying the underlying cause.
    pub fn finish_hop(&self, outcome: Result<AudioFrame, ProcessingError>) -> (r: Result<
        AudioFrame,
        ProcessError,
    >)
        ensures
            outcome matches Ok(f) ==> r matches Ok(g) && g == f,
            outcome matches Err(e) ==> r == Err::<AudioFrame, ProcessError>(
                ProcessError::Processing(e),
            ),
    {
        match outcome {
            Ok(frame) => Ok(frame),
            Err(e) => Err(ProcessError::Processing(e)),
        }
    }
}

/// Determinism of the engine's half of a processing call: two engines
/// with equal configuration, holding input frames of equal shape against
/// it, reach the same verdict and, on a match, hand the model the same
/// all-zero output frame. The engine holds no mutable state, so this
/// extends to every call of an identically constructed pair of engines;
/// only the model's recurrent state, owned by the caller, evolves
/// between hops.
pub proof fn lemma_begin_hop_deterministic(
    e1: &Engine,
    e2: &Engine,
    f1: &AudioFrame,
    f2: &AudioFrame,
)
    requires
        e1.spec_channels() == e2.spec_channels(),
        e1.spec_hop_size() == e2.spec_hop_size(),
        f1.spec_channels() == f2.spec_channels(),
        f1.spec_samples_per_channel() == f2.spec_samples_per_channel(),
    ensures
        begin_verdict(
            e1.spec_channels(),
            e1.spec_hop_size(),
            f1.spec_channels(),
            f1.spec_samples_per_channel(),
        ) == begin_verdict(
            e2.spec_channels(),
            e2.spec_hop_size(),
            f2.spec_channels(),
            f2.spec_samples_per_channel(),
        ),
{
}

} // verus!
