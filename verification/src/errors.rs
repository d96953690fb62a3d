//! Error taxonomy of the engine.
//!
//! Three failures are surfaced to the caller, none of them by panicking:
//! construction of the engine can fail, an input frame can have the wrong
//! shape, and the underlying model can fail during inference. Every
//! failure is a recoverable value; a caller at a host-language boundary
//! translates it into the host's error convention.

use vstd::prelude::*;

verus! {

/// The engine could not be built for the requested configuration.
///
/// No engine exists after this failure; retrying with the same
/// configuration will fail again.
#[derive(Clone, Copy, Debug, PartialEq, Eq, Structural)]
pub enum ConstructionError {
    /// The requested channel count was zero.
    ZeroChannels,
    /// The model reported a sample rate of zero.
    ZeroSampleRate,
    /// The model reported a hop size of zero.
    ZeroHopSize,
    /// One frame of the requested geometry would not fit in memory:
    /// `channels * hop_size` exceeds the addressable size.
    FrameOverflow,
}

impl ConstructionError {
    /// A short description of the failure, for the caller to embed in a
    /// host-visible error message.
    pub fn message(&self) -> (r: &'static str)
        ensures
            *self is ZeroChannels ==> r@ == "channel count must be positive"@,
            *self is ZeroSampleRate ==> r@ == "model sample rate must be positive"@,
            *self is ZeroHopSize ==> r@ == "model hop size must be positive"@,
            *self is FrameOverflow ==> r@ == "frame of this geometry exceeds addressable memory"@,
    {
        match self {
            ConstructionError::ZeroChannels => "channel count must be positive",
            ConstructionError::ZeroSampleRate => "model sample rate must be positive",
            ConstructionError::ZeroHopSize => "model hop size must be positive",
            ConstructionError::FrameOverflow => "frame of this geometry exceeds addressable memory",
        }
    }
}

/// The axis of a frame on which a shape mismatch was found.
#[derive(Clone, Copy, Debug, PartialEq, Eq, Structural)]
pub enum FrameDim {
    /// The first axis: one row per channel.
    Channels,
    /// The second axis: one sample per position within the hop.
    Samples,
}

/// An input frame did not match the engine's fixed configuration.
///
/// The error names the mismatched axis and the expected and actual
/// lengths. The engine's state is untouched by such a call: a following
/// correctly shaped call behaves as if the rejected one never happened.
#[derive(Clone, Copy, Debug, PartialEq, Eq, Structural)]
pub struct ShapeError {
    /// The first axis whose length differed, channels before samples.
    pub dim: FrameDim,
    /// The length the engine's configuration fixes for that axis.
    pub expected: usize,
    /// The length the rejected frame had on that axis.
    pub actual: usize,
}

impl ShapeError {
    /// A short description of the mismatched axis, for the caller to embed
    /// in a host-visible error message.
    pub fn message(&self) -> (r: &'static str)
        ensures
            self.dim is Channels ==> r@ == "input channel count does not match engine channels"@,
            self.dim is Samples ==> r@ == "input samples per channel must equal the hop size"@,
    {
        match self.dim {
            FrameDim::Channels => "input channel count does not match engine channels",
            FrameDim::Samples => "input samples per channel must equal the hop size",
        }
    }
}

/// The model failed during inference.
///
/// The engine remains usable for later calls, but the failed call's
/// output is not meaningful, and the model's recurrent state may have
/// advanced partially.
#[derive(Clone, Debug, PartialEq, Eq)]
pub struct ProcessingError {
    reason: String,
}

impl ProcessingError {
    /// Wraps the underlying cause reported by the model.
    pub fn new(reason: String) -> (r: ProcessingError)
        ensures
            r.spec_reason() == reason@,
    {
        ProcessingError { reason }
    }

    /// The underlying cause, as the model reported it.
    pub closed spec fn spec_reason(&self) -> Seq<char> {
        self.reason@
    }

    /// The underlying cause, for the caller to embed in a host-visible
    /// error message.
    pub fn message(&self) -> (r: &str)
        ensures
            r@ == self.spec_reason(),
    {
        self.reason.as_str()
    }
}

/// Everything a processing call can fail with.
#[derive(Clone, Debug, PartialEq, Eq)]
pub enum ProcessError {
    /// The input frame's shape did not match the configuration.
    Shape(ShapeError),
    /// The model failed during inference.
    Processing(ProcessingError),
}

} // verus!
